//! Helpers that assemble the jumps of a trampoline.
//!
//! The bytes are gathered by an assembler of the `dynasmrt` crate. What the
//! helpers push into it is stated over `assembled`, the bytes that the
//! assembler holds.

use crate::error::{ErrorModel, MemOpError, MemOpResult};
use crate::hooks::{HookData, HookImpl};
use dynasmrt::DynasmApi;
use vstd::prelude::*;

verus! {

/// An assembler for 32-bit x86 code: `dynasmrt::Assembler` with the x86
/// relocation model.
#[verifier::external_body]
pub struct X86Assembler {
    ops: dynasmrt::Assembler<dynasmrt::x86::X86Relocation>,
}

/// The bytes that an assembler holds, in the order in which they were pushed.
pub uninterp spec fn assembled(ops: X86Assembler) -> Seq<u8>;

/// Whether an assembler can be finalized: no label of it is unresolved and
/// nothing else shares its buffer.
pub uninterp spec fn finalizable(ops: X86Assembler) -> bool;

impl View for X86Assembler {
    type V = Seq<u8>;

    open spec fn view(&self) -> Seq<u8> {
        assembled(*self)
    }
}

/// The four bytes of a 32-bit value, least significant first.
pub open spec fn le_bytes(value: i32) -> Seq<u8> {
    let bits = value as u32;
    seq![
        (bits & 0xff) as u8,
        ((bits >> 8) & 0xff) as u8,
        ((bits >> 16) & 0xff) as u8,
        ((bits >> 24) & 0xff) as u8,
    ]
}

/// The 32-bit value that a displacement wraps to: the one value of `i32`
/// that differs from `exact` by a multiple of 2^32. A displacement that fits
/// into 32 bits is left as it is.
pub open spec fn wrap_i32(exact: int) -> int {
    let low = exact % 0x1_0000_0000;
    if low >= 0x8000_0000 {
        low - 0x1_0000_0000
    } else {
        low
    }
}

/// The displacement of a relative instruction of `inst_size` bytes that is
/// assembled for the cave at `origin`, `offset` bytes into it, and leads to
/// `dest`.
pub open spec fn rel_inst(offset: int, origin: int, dest: int, inst_size: int) -> int {
    dest - (origin + (offset - 1) + inst_size)
}

/// `Assembler::new`: a new assembler holds no bytes and can be finalized.
/// The call fails where the operating system grants no memory for it.
#[verifier::external_body]
fn new_assembler() -> (made: Option<X86Assembler>)
    ensures
        made matches Some(ops) ==> assembled(ops) == Seq::<u8>::empty() && finalizable(ops),
{
    match dynasmrt::Assembler::new() {
        Ok(ops) => Some(X86Assembler { ops }),
        Err(_) => None,
    }
}

/// `DynasmApi::offset`: the number of bytes pushed so far.
#[verifier::external_body]
fn offset_of(ops: &X86Assembler) -> (offset: usize)
    ensures
        offset == assembled(*ops).len(),
{
    ops.ops.offset().0
}

/// `DynasmApi::push`: appends one byte.
#[verifier::external_body]
fn push_byte(ops: &mut X86Assembler, byte: u8)
    ensures
        assembled(*final(ops)) == assembled(*old(ops)).push(byte),
        finalizable(*final(ops)) == finalizable(*old(ops)),
{
    ops.ops.push(byte)
}

/// `DynasmApi::push_i32`: appends the four bytes of `value`, least
/// significant first.
#[verifier::external_body]
fn push_i32(ops: &mut X86Assembler, value: i32)
    ensures
        assembled(*final(ops)) == assembled(*old(ops)) + le_bytes(value),
        finalizable(*final(ops)) == finalizable(*old(ops)),
{
    ops.ops.push_i32(value)
}

/// `Assembler::finalize`: hands out the bytes that the assembler holds. The
/// outside function does not return where a label is unresolved, and hands
/// the assembler back where its buffer is shared.
#[verifier::external_body]
fn finalize(ops: X86Assembler) -> (bytes: Option<Vec<u8>>)
    requires
        finalizable(ops),
    ensures
        bytes is Some,
        bytes->Some_0@ == assembled(ops),
{
    match ops.ops.finalize() {
        Ok(buffer) => Some(buffer.to_vec()),
        Err(_) => None,
    }
}

/// Computes the displacement of a relative instruction from plain values:
/// `dest - (origin + (offset - 1) + inst_size)`, wrapped to 32 bits.
pub fn rel_displacement(offset: usize, origin: usize, dest: usize, inst_size: usize) -> (rel: i32)
    ensures
        rel == wrap_i32(rel_inst(offset as int, origin as int, dest as int, inst_size as int)),
        i32::MIN <= rel_inst(offset as int, origin as int, dest as int, inst_size as int)
            <= i32::MAX ==> rel == rel_inst(
            offset as int,
            origin as int,
            dest as int,
            inst_size as int,
        ),
{
    let exact: i128 = dest as i128 - (origin as i128 + (offset as i128 - 1) + inst_size as i128);
    let rel: i32 = #[verifier::truncate]
    (exact as i32);
    proof {
        lemma_truncate(exact);
    }
    rel
}

proof fn lemma_truncate(exact: i128)
    ensures
        (exact as i32) as int == wrap_i32(exact as int),
{
    assert((exact as i32) as int == wrap_i32(exact as int)) by (bit_vector);
}

/// The five bytes of a relative jump: the opcode `E9` and the displacement,
/// least significant byte first.
pub open spec fn jmp_rel32(rel: i32) -> Seq<u8> {
    seq![0xE9u8] + le_bytes(rel)
}

/// `count` bytes of `nop`.
pub open spec fn nop_bytes(count: int) -> Seq<u8> {
    Seq::new(
        if count > 0 {
            count as nat
        } else {
            0nat
        },
        |i: int| 0x90u8,
    )
}

/// The jump that is written over the patch site at `addr` and leads into the
/// cave at `cave`.
pub open spec fn inbound_jump(cave: int, addr: int) -> Seq<u8> {
    jmp_rel32(wrap_i32(cave - (addr + 5)) as i32)
}

/// What `end_jmp` appends for a patch-site jump of `jmp_size` bytes: the
/// jump back to `target`, and the padding behind it.
pub open spec fn return_jump(
    offset: int,
    cave: int,
    target: int,
    jmp_size: int,
    nops: Option<usize>,
) -> Seq<u8> {
    jmp_rel32(wrap_i32(rel_inst(offset, cave, target, jmp_size)) as i32) + match nops {
        Some(n) => nop_bytes(n - 1),
        None => Seq::empty(),
    }
}

impl X86Assembler {
    /// A new assembler that holds no bytes. It fails with an `Other` error
    /// where no memory can be had for it.
    pub fn new() -> (result: MemOpResult<X86Assembler>)
        ensures
            result matches Ok(ops) ==> ops@ == Seq::<u8>::empty() && finalizable(ops),
            result matches Err(e) ==> e@ == (ErrorModel::Other {
                chain: seq!["Could not set up the assembler."@],
            }),
    {
        match new_assembler() {
            Some(ops) => Ok(ops),
            None => Err(MemOpError::new("Could not set up the assembler.")),
        }
    }

    /// The number of bytes assembled so far.
    pub fn offset(&self) -> (offset: usize)
        ensures
            offset == self@.len(),
    {
        offset_of(self)
    }

    /// Appends one byte.
    pub fn push(&mut self, byte: u8)
        ensures
            final(self)@ == old(self)@.push(byte),
            finalizable(*final(self)) == finalizable(*old(self)),
    {
        push_byte(self, byte)
    }

    /// Appends a 32-bit value, least significant byte first.
    pub fn push_i32(&mut self, value: i32)
        ensures
            final(self)@ == old(self)@ + le_bytes(value),
            finalizable(*final(self)) == finalizable(*old(self)),
    {
        push_i32(self, value)
    }

    /// Appends bytes as they are.
    pub fn extend(&mut self, bytes: &[u8])
        ensures
            final(self)@ == old(self)@ + bytes@,
            finalizable(*final(self)) == finalizable(*old(self)),
    {
        let mut i: usize = 0;
        while i < bytes.len()
            invariant
                i <= bytes@.len(),
                self@ == old(self)@ + bytes@.take(i as int),
                finalizable(*self) == finalizable(*old(self)),
            decreases bytes@.len() - i,
        {
            push_byte(self, bytes[i]);
            proof {
                assert(self@ =~= old(self)@ + bytes@.take(i + 1));
            }
            i += 1;
        }
        proof {
            assert(bytes@.take(bytes@.len() as int) =~= bytes@);
        }
    }

    /// Appends a relative jump with the displacement `rel`.
    pub fn jmp(&mut self, rel: i32)
        ensures
            final(self)@ == old(self)@ + jmp_rel32(rel),
            finalizable(*final(self)) == finalizable(*old(self)),
    {
        push_byte(self, 0xE9);
        push_i32(self, rel);
        proof {
            assert(self@ =~= old(self)@ + jmp_rel32(rel));
        }
    }
}

/// Hands out the bytes of an assembler.
pub fn handle_x86_asm_build(ops: X86Assembler) -> (result: MemOpResult<Vec<u8>>)
    requires
        finalizable(ops),
    ensures
        result matches Ok(bytes) && bytes@ == ops@,
{
    match finalize(ops) {
        Some(bytes) => Ok(bytes),
        None => Err(MemOpError::new("Error occured when compiling bytecode.")),
    }
}

/// Calculates the displacement of a relative instruction of `inst_size`
/// bytes that is assembled next, for the code at `origin`, and leads to
/// `dest`.
///
/// The displacement is `dest - (origin + (offset - 1) + inst_size)`, where
/// `offset` is the number of bytes assembled so far, wrapped to 32 bits.
pub fn calc_rel_inst(ops: &X86Assembler, origin: usize, dest: usize, inst_size: usize) -> (rel:
    i32)
    ensures
        rel == wrap_i32(rel_inst(ops@.len() as int, origin as int, dest as int, inst_size as int)),
{
    rel_displacement(ops.offset(), origin, dest, inst_size)
}

/// Pads with `nop`: appends `iterations - 1` of them, none where that is
/// not positive.
pub fn apply_nops(ops: &mut X86Assembler, iterations: usize)
    ensures
        final(ops)@ == old(ops)@ + nop_bytes(iterations - 1),
        finalizable(*final(ops)) == finalizable(*old(ops)),
{
    let mut i: usize = 1;
    proof {
        assert(ops@ =~= old(ops)@ + nop_bytes(0));
    }
    while i < iterations
        invariant
            1 <= i,
            i <= iterations || (iterations == 0 && i == 1),
            ops@ == old(ops)@ + nop_bytes(i - 1),
            finalizable(*ops) == finalizable(*old(ops)),
        decreases iterations - i,
    {
        push_byte(ops, 0x90);
        proof {
            assert(ops@ =~= old(ops)@ + nop_bytes(i as int));
        }
        i += 1;
    }
    proof {
        if iterations == 0 {
            assert(nop_bytes(iterations - 1) =~= nop_bytes(0));
        }
    }
}

/// Sets up an assembler with the jump that leads from the patch site into
/// the cave.
///
/// Without a patch site there is nothing to jump from: that is an error.
pub fn newmem_jmp(hook: &HookData) -> (result: MemOpResult<X86Assembler>)
    ensures
        hook.addr is None ==> result is Err && result->Err_0@ == HookData::no_addr_error(),
        hook.addr matches Some(addr) ==> {
            &&& result matches Ok(ops) ==> ops@ == inbound_jump(
                hook.hook_mem.addr as int,
                addr as int,
            ) && finalizable(ops)
            &&& result matches Err(e) ==> e@ == (ErrorModel::Other {
                chain: seq!["Could not set up the assembler."@],
            })
        },
{
    let addr = hook.get_addr()?;
    let mut ops = X86Assembler::new()?;
    let rel = rel_displacement(1, addr, hook.hook_mem.addr, 5);
    ops.jmp(rel);
    proof {
        assert(ops@ =~= inbound_jump(hook.hook_mem.addr as int, addr as int));
    }
    Ok(ops)
}

/// Appends the jump that leaves the cave for `target`, for a patch-site
/// jump of `jmp_size` bytes, and pads behind it where `nops` asks for it.
pub fn end_jmp_sized(
    ops: &mut X86Assembler,
    nops: Option<usize>,
    cave: usize,
    jmp_size: usize,
    target: usize,
)
    ensures
        final(ops)@ == old(ops)@ + return_jump(
            old(ops)@.len() as int,
            cave as int,
            target as int,
            jmp_size as int,
            nops,
        ),
        finalizable(*final(ops)) == finalizable(*old(ops)),
{
    let rel = calc_rel_inst(ops, cave, target, jmp_size);
    ops.jmp(rel);
    if let Some(n) = nops {
        apply_nops(ops, n);
    }
    proof {
        assert(ops@ =~= old(ops)@ + return_jump(
            old(ops)@.len() as int,
            cave as int,
            target as int,
            jmp_size as int,
            nops,
        ));
    }
}

/// Appends the jump that leaves the cave for `target`, and pads behind it
/// where `nops` asks for it.
///
/// The size of the patch-site jump is asked of `hook_impl`. Where that
/// fails, nothing is appended and the failure is handed on.
pub fn end_jmp<H: HookImpl + ?Sized>(
    ops: &mut X86Assembler,
    nops: Option<usize>,
    hook_data: &HookData,
    hook_impl: &H,
    target: usize,
) -> (result: MemOpResult<()>)
    ensures
        exists|built: MemOpResult<Vec<u8>>|
            call_ensures(H::build_jmp, (hook_impl, hook_data), built) && match built {
                Err(error) => result == Err::<(), MemOpError>(error) && final(ops)@ == old(ops)@,
                Ok(jump) => result is Ok && final(ops)@ == old(ops)@ + return_jump(
                    old(ops)@.len() as int,
                    hook_data.hook_mem.addr as int,
                    target as int,
                    jump@.len() as int,
                    nops,
                ),
            },
        finalizable(*final(ops)) == finalizable(*old(ops)),
{
    match hook_impl.build_jmp(hook_data) {
        Ok(jump) => {
            end_jmp_sized(ops, nops, hook_data.hook_mem.addr, jump.len(), target);
            Ok(())
        },
        Err(error) => Err(error),
    }
}

} // verus!
