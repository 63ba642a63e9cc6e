//! Conversion between typed values and the bytes that the victim holds of
//! them.
//!
//! The plain integers are converted by the `bytemuck` crate: a value is read
//! from and turned into its image in memory, byte for byte.

use crate::error::{ErrorModel, MemOpError, MemOpResult};
use vstd::prelude::*;

verus! {

/// The `i32` whose image in memory the four bytes are.
pub uninterp spec fn pod_i32(bytes: Seq<u8>) -> i32;

/// The `u32` whose image in memory the four bytes are.
pub uninterp spec fn pod_u32(bytes: Seq<u8>) -> u32;

/// The `i64` whose image in memory the eight bytes are.
pub uninterp spec fn pod_i64(bytes: Seq<u8>) -> i64;

/// The `u64` whose image in memory the eight bytes are.
pub uninterp spec fn pod_u64(bytes: Seq<u8>) -> u64;

/// `bytemuck::try_pod_read_unaligned::<i32>`: reads four bytes as an `i32`,
/// and fails on any other number of bytes.
#[verifier::external_body]
fn read_i32(bytes: &[u8]) -> (value: Option<i32>)
    ensures
        value is Some <==> bytes@.len() == 4,
        value is Some ==> value->Some_0 == pod_i32(bytes@),
{
    bytemuck::try_pod_read_unaligned::<i32>(bytes).ok()
}

/// `bytemuck::try_pod_read_unaligned::<u32>`: reads four bytes as a `u32`,
/// and fails on any other number of bytes.
#[verifier::external_body]
fn read_u32(bytes: &[u8]) -> (value: Option<u32>)
    ensures
        value is Some <==> bytes@.len() == 4,
        value is Some ==> value->Some_0 == pod_u32(bytes@),
{
    bytemuck::try_pod_read_unaligned::<u32>(bytes).ok()
}

/// `bytemuck::try_pod_read_unaligned::<i64>`: reads eight bytes as an
/// `i64`, and fails on any other number of bytes.
#[verifier::external_body]
fn read_i64(bytes: &[u8]) -> (value: Option<i64>)
    ensures
        value is Some <==> bytes@.len() == 8,
        value is Some ==> value->Some_0 == pod_i64(bytes@),
{
    bytemuck::try_pod_read_unaligned::<i64>(bytes).ok()
}

/// `bytemuck::try_pod_read_unaligned::<u64>`: reads eight bytes as a
/// `u64`, and fails on any other number of bytes.
#[verifier::external_body]
fn read_u64(bytes: &[u8]) -> (value: Option<u64>)
    ensures
        value is Some <==> bytes@.len() == 8,
        value is Some ==> value->Some_0 == pod_u64(bytes@),
{
    bytemuck::try_pod_read_unaligned::<u64>(bytes).ok()
}

/// `bytemuck::bytes_of::<i32>`: the image of the value in memory, four
/// bytes that read back as the value.
#[verifier::external_body]
fn image_of_i32(value: i32) -> (bytes: Vec<u8>)
    ensures
        bytes@.len() == 4,
        pod_i32(bytes@) == value,
{
    bytemuck::bytes_of::<i32>(&value).to_vec()
}

/// `bytemuck::bytes_of::<u32>`: the image of the value in memory, four
/// bytes that read back as the value.
#[verifier::external_body]
fn image_of_u32(value: u32) -> (bytes: Vec<u8>)
    ensures
        bytes@.len() == 4,
        pod_u32(bytes@) == value,
{
    bytemuck::bytes_of::<u32>(&value).to_vec()
}

/// `bytemuck::bytes_of::<i64>`: the image of the value in memory, eight
/// bytes that read back as the value.
#[verifier::external_body]
fn image_of_i64(value: i64) -> (bytes: Vec<u8>)
    ensures
        bytes@.len() == 8,
        pod_i64(bytes@) == value,
{
    bytemuck::bytes_of::<i64>(&value).to_vec()
}

/// `bytemuck::bytes_of::<u64>`: the image of the value in memory, eight
/// bytes that read back as the value.
#[verifier::external_body]
fn image_of_u64(value: u64) -> (bytes: Vec<u8>)
    ensures
        bytes@.len() == 8,
        pod_u64(bytes@) == value,
{
    bytemuck::bytes_of::<u64>(&value).to_vec()
}

/// The `i32` that bytes are read as: the value whose image four bytes
/// are, none for any other number of bytes.
pub open spec fn decoded_i32(bytes: Seq<u8>) -> Option<i32> {
    if bytes.len() == 4 {
        Some(pod_i32(bytes))
    } else {
        None
    }
}

/// The `u32` that bytes are read as.
pub open spec fn decoded_u32(bytes: Seq<u8>) -> Option<u32> {
    if bytes.len() == 4 {
        Some(pod_u32(bytes))
    } else {
        None
    }
}

/// The `i64` that bytes are read as.
pub open spec fn decoded_i64(bytes: Seq<u8>) -> Option<i64> {
    if bytes.len() == 8 {
        Some(pod_i64(bytes))
    } else {
        None
    }
}

/// The `u64` that bytes are read as.
pub open spec fn decoded_u64(bytes: Seq<u8>) -> Option<u64> {
    if bytes.len() == 8 {
        Some(pod_u64(bytes))
    } else {
        None
    }
}

/// The error of a conversion from the wrong number of bytes.
pub open spec fn size_mismatch() -> ErrorModel {
    ErrorModel::Other { chain: seq!["Failed to convert bytes to type: SizeMismatch"@] }
}

fn mismatch<T>() -> (result: MemOpResult<Option<T>>)
    ensures
        result is Err,
        result->Err_0@ == size_mismatch(),
{
    Err(MemOpError::new("Failed to convert bytes to type: SizeMismatch"))
}

/// A type whose values can be read from and written to the victim: how a
/// value is made of bytes, and how it is turned into them.
pub trait Transmutable<T> {
    /// The value that the bytes stand for; `Ok(None)` where they stand for
    /// none.
    fn transmute_from(bytes: &Vec<u8>) -> MemOpResult<Option<T>>;

    /// The bytes that stand for the value.
    fn byte_repr(&self) -> MemOpResult<Vec<u8>>;
}

/// Marks the types that are converted as their plain image in memory.
pub trait AutoImplTransmutable {

}

/// A type that the typed reads and writes accept.
pub trait ZholTyped<T>: Transmutable<T> {

}

impl<T: Transmutable<T>> ZholTyped<T> for T {

}

impl AutoImplTransmutable for i32 {

}

impl AutoImplTransmutable for i64 {

}

impl AutoImplTransmutable for u32 {

}

impl AutoImplTransmutable for u64 {

}

impl Transmutable<i32> for i32 {
    fn transmute_from(bytes: &Vec<u8>) -> (result: MemOpResult<Option<i32>>)
        ensures
            decoded_i32(bytes@) is Some ==> result == Ok::<Option<i32>, MemOpError>(
                decoded_i32(bytes@),
            ),
            decoded_i32(bytes@) is None ==> result is Err && result->Err_0@ == size_mismatch(),
    {
        match read_i32(bytes.as_slice()) {
            Some(value) => Ok(Some(value)),
            None => mismatch(),
        }
    }

    fn byte_repr(&self) -> (result: MemOpResult<Vec<u8>>)
        ensures
            result matches Ok(bytes) && bytes@.len() == 4 && pod_i32(bytes@) == *self,
    {
        Ok(image_of_i32(*self))
    }
}

impl Transmutable<u32> for u32 {
    fn transmute_from(bytes: &Vec<u8>) -> (result: MemOpResult<Option<u32>>)
        ensures
            decoded_u32(bytes@) is Some ==> result == Ok::<Option<u32>, MemOpError>(
                decoded_u32(bytes@),
            ),
            decoded_u32(bytes@) is None ==> result is Err && result->Err_0@ == size_mismatch(),
    {
        match read_u32(bytes.as_slice()) {
            Some(value) => Ok(Some(value)),
            None => mismatch(),
        }
    }

    fn byte_repr(&self) -> (result: MemOpResult<Vec<u8>>)
        ensures
            result matches Ok(bytes) && bytes@.len() == 4 && pod_u32(bytes@) == *self,
    {
        Ok(image_of_u32(*self))
    }
}

impl Transmutable<i64> for i64 {
    fn transmute_from(bytes: &Vec<u8>) -> (result: MemOpResult<Option<i64>>)
        ensures
            decoded_i64(bytes@) is Some ==> result == Ok::<Option<i64>, MemOpError>(
                decoded_i64(bytes@),
            ),
            decoded_i64(bytes@) is None ==> result is Err && result->Err_0@ == size_mismatch(),
    {
        match read_i64(bytes.as_slice()) {
            Some(value) => Ok(Some(value)),
            None => mismatch(),
        }
    }

    fn byte_repr(&self) -> (result: MemOpResult<Vec<u8>>)
        ensures
            result matches Ok(bytes) && bytes@.len() == 8 && pod_i64(bytes@) == *self,
    {
        Ok(image_of_i64(*self))
    }
}

impl Transmutable<u64> for u64 {
    fn transmute_from(bytes: &Vec<u8>) -> (result: MemOpResult<Option<u64>>)
        ensures
            decoded_u64(bytes@) is Some ==> result == Ok::<Option<u64>, MemOpError>(
                decoded_u64(bytes@),
            ),
            decoded_u64(bytes@) is None ==> result is Err && result->Err_0@ == size_mismatch(),
    {
        match read_u64(bytes.as_slice()) {
            Some(value) => Ok(Some(value)),
            None => mismatch(),
        }
    }

    fn byte_repr(&self) -> (result: MemOpResult<Vec<u8>>)
        ensures
            result matches Ok(bytes) && bytes@.len() == 8 && pod_u64(bytes@) == *self,
    {
        Ok(image_of_u64(*self))
    }
}

/// Reads the 32-bit pointer that four bytes of the victim hold.
pub fn pointer_from(bytes: &Vec<u8>) -> (pointer: Option<u32>)
    ensures
        pointer == decoded_u32(bytes@),
{
    read_u32(bytes.as_slice())
}

/// Integer write and read: bytes that are the image of a value, as
/// `byte_repr` hands them out, are read back by `transmute_from` as that
/// value.
pub proof fn lemma_image_reads_back(bytes: Seq<u8>)
    ensures
        bytes.len() == 4 ==> decoded_i32(bytes) == Some(pod_i32(bytes)),
        bytes.len() == 4 ==> decoded_u32(bytes) == Some(pod_u32(bytes)),
        bytes.len() == 8 ==> decoded_i64(bytes) == Some(pod_i64(bytes)),
        bytes.len() == 8 ==> decoded_u64(bytes) == Some(pod_u64(bytes)),
{
}

} // verus!
