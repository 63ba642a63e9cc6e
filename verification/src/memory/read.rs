//! Reading from the victim: raw bytes, typed values and wide strings.

use crate::error::{ErrorModel, MemOpError, MemOpResult};
use crate::memory::transmute::{
    decoded_i32, decoded_u32, pointer_from, Transmutable, ZholTyped,
};
use crate::memory::{
    no_address, no_pointer, refuse_reply, unexpected_reply, Op, Reply, Step, StepModel,
};
use vstd::prelude::*;

verus! {

/// Where a read of bytes stands.
#[derive(Clone, Copy, Debug, PartialEq, Eq, Structural)]
pub enum ReadStage {
    /// The wait for a readable page before the read is under way.
    FenceBefore,
    /// The read itself is under way.
    Reading,
    /// The processor was given away after the read.
    Settling,
    /// The wait for a readable page after the read is under way.
    FenceAfter,
    /// The read is over.
    Over,
}

/// The read of `size` bytes from `addr`.
///
/// The page is waited for, the bytes are copied, the processor is given
/// away for a moment, and the page is waited for once more. What comes
/// back is the buffer cut down to the bytes that were in fact copied.
#[derive(Debug, PartialEq, Eq)]
pub struct ReadBytes {
    /// The address of the first byte.
    pub addr: usize,
    /// The number of bytes asked for.
    pub size: usize,
    /// The time that each wait may take, in nanoseconds.
    pub timeout: Option<u64>,
    /// Where the read stands.
    pub stage: ReadStage,
    /// The bytes that were copied, once they were.
    pub data: Vec<u8>,
}

/// The mathematical value of a `ReadBytes`.
pub struct ReadBytesModel {
    pub addr: usize,
    pub size: usize,
    pub timeout: Option<u64>,
    pub stage: ReadStage,
    pub data: Seq<u8>,
}

impl View for ReadBytes {
    type V = ReadBytesModel;

    open spec fn view(&self) -> ReadBytesModel {
        ReadBytesModel {
            addr: self.addr,
            size: self.size,
            timeout: self.timeout,
            stage: self.stage,
            data: self.data@,
        }
    }
}

/// The bytes of `buffer` that a read filled: its first `transferred` bytes,
/// or all of it where it has fewer.
pub open spec fn truncated(buffer: Seq<u8>, transferred: usize) -> Seq<u8> {
    if transferred <= buffer.len() {
        buffer.take(transferred as int)
    } else {
        buffer
    }
}

impl ReadBytesModel {
    /// The request that waits for the page to be readable.
    pub open spec fn fence(&self) -> Op {
        Op::WaitForSafeMem { addr: self.addr, timeout: self.timeout, needs_write: false }
    }

    /// The read at another stage.
    pub open spec fn at(&self, stage: ReadStage) -> ReadBytesModel {
        ReadBytesModel { stage, ..*self }
    }

    /// What the read does with an outcome: the read afterwards, and its
    /// answer.
    pub open spec fn next(&self, reply: MemOpResult<Reply>) -> (ReadBytesModel, StepModel<Seq<u8>>) {
        match (self.stage, reply) {
            (ReadStage::Over, _) => (*self, StepModel::Finished(Err(unexpected_reply()))),
            (_, Err(error)) => (self.at(ReadStage::Over), StepModel::Finished(Err(error@))),
            (ReadStage::FenceBefore, Ok(Reply::Done)) => (
                self.at(ReadStage::Reading),
                StepModel::Perform(
                    Op::ReadMemory { addr: self.addr, size: self.size, timeout: self.timeout },
                ),
            ),
            (ReadStage::Reading, Ok(Reply::Read { buffer, transferred })) => (
                ReadBytesModel {
                    stage: ReadStage::Settling,
                    data: truncated(buffer@, transferred),
                    ..*self
                },
                StepModel::Perform(Op::Yield),
            ),
            (ReadStage::Settling, Ok(Reply::Done)) => (
                self.at(ReadStage::FenceAfter),
                StepModel::Perform(self.fence()),
            ),
            (ReadStage::FenceAfter, Ok(Reply::Done)) => (
                ReadBytesModel { stage: ReadStage::Over, data: Seq::empty(), ..*self },
                StepModel::Finished(Ok(self.data)),
            ),
            _ => (self.at(ReadStage::Over), StepModel::Finished(Err(unexpected_reply()))),
        }
    }
}

impl ReadBytes {
    /// Begins a read of `size` bytes from `addr`: hands out the read and
    /// its first request, the wait for a readable page.
    pub fn start(addr: usize, size: usize, timeout: Option<u64>) -> (begun: (ReadBytes, Op))
        ensures
            begun.0@ == (ReadBytesModel {
                addr,
                size,
                timeout,
                stage: ReadStage::FenceBefore,
                data: Seq::empty(),
            }),
            begun.1 == begun.0@.fence(),
    {
        let read = ReadBytes { addr, size, timeout, stage: ReadStage::FenceBefore, data: Vec::new() };
        (read, Op::WaitForSafeMem { addr, timeout, needs_write: false })
    }

    fn fence(&self) -> (op: Op)
        ensures
            op == self@.fence(),
    {
        Op::WaitForSafeMem { addr: self.addr, timeout: self.timeout, needs_write: false }
    }

    /// Takes the outcome of the request that was handed out last and
    /// answers with the next request or with the bytes that were read.
    pub fn step(&mut self, reply: MemOpResult<Reply>) -> (step: Step<Vec<u8>>)
        ensures
            (final(self)@, step@) == old(self)@.next(reply),
    {
        match self.stage {
            ReadStage::Over => refuse_reply(),
            stage => {
                match reply {
                    Err(error) => {
                        self.stage = ReadStage::Over;
                        Step::Finished(Err(error))
                    },
                    Ok(reply) => {
                        match (stage, reply) {
                            (ReadStage::FenceBefore, Reply::Done) => {
                                self.stage = ReadStage::Reading;
                                Step::Perform(
                                    Op::ReadMemory {
                                        addr: self.addr,
                                        size: self.size,
                                        timeout: self.timeout,
                                    },
                                )
                            },
                            (ReadStage::Reading, Reply::Read { buffer, transferred }) => {
                                let mut buffer = buffer;
                                buffer.truncate(transferred);
                                self.data = buffer;
                                self.stage = ReadStage::Settling;
                                Step::Perform(Op::Yield)
                            },
                            (ReadStage::Settling, Reply::Done) => {
                                self.stage = ReadStage::FenceAfter;
                                Step::Perform(self.fence())
                            },
                            (ReadStage::FenceAfter, Reply::Done) => {
                                let mut data: Vec<u8> = Vec::new();
                                core::mem::swap(&mut data, &mut self.data);
                                self.stage = ReadStage::Over;
                                Step::Finished(Ok(data))
                            },
                            _ => {
                                self.stage = ReadStage::Over;
                                refuse_reply()
                            },
                        }
                    },
                }
            },
        }
    }
}

/// The error of a typed read whose bytes stand for no value.
pub open spec fn no_data() -> ErrorModel {
    ErrorModel::Other { chain: seq!["No data for the type that was read."@] }
}

/// What a typed read makes of the outcome of a conversion: the value,
/// the failure of the conversion, or an error where the bytes stand for no
/// value.
pub fn value_or_error<T>(outcome: MemOpResult<Option<T>>) -> (result: MemOpResult<T>)
    ensures
        match outcome {
            Ok(Some(value)) => result == Ok::<T, MemOpError>(value),
            Ok(None) => result is Err && result->Err_0@ == no_data(),
            Err(error) => result == Err::<T, MemOpError>(error),
        },
{
    match outcome {
        Ok(Some(value)) => Ok(value),
        Ok(None) => Err(MemOpError::new("No data for the type that was read.")),
        Err(error) => Err(error),
    }
}

/// Makes a value of the bytes that were read for it.
pub fn read_value<T: ZholTyped<T>>(bytes: &Vec<u8>) -> (result: MemOpResult<T>)
    ensures
        exists|outcome: MemOpResult<Option<T>>|
            call_ensures(T::transmute_from, (bytes,), outcome) && match outcome {
                Ok(Some(value)) => result == Ok::<T, MemOpError>(value),
                Ok(None) => result is Err && result->Err_0@ == no_data(),
                Err(error) => result == Err::<T, MemOpError>(error),
            },
{
    value_or_error(T::transmute_from(bytes))
}

/// The time that each read of a wide string may take: five seconds, in
/// nanoseconds.
pub const WIDE_STRING_TIMEOUT_NANOS: u64 = 5_000_000_000;

/// The text that UTF-16 code units spell; nothing where they are no
/// UTF-16.
pub uninterp spec fn utf16_text(units: Seq<u16>) -> Option<Seq<char>>;

/// The code units that bytes hold, two bytes each, the low byte first. A
/// last byte without a partner is left out.
pub open spec fn utf16_units(raw: Seq<u8>) -> Seq<u16> {
    Seq::new(raw.len() / 2, |i: int| (raw[2 * i] + 256 * raw[2 * i + 1]) as u16)
}

/// `String::from_utf16`: the text that the code units spell, or nothing
/// where they are no UTF-16.
#[verifier::external_body]
fn from_utf16(units: &Vec<u16>) -> (text: Option<String>)
    ensures
        text is Some <==> utf16_text(units@) is Some,
        text is Some ==> text->Some_0@ == utf16_text(units@)->Some_0,
{
    String::from_utf16(units).ok()
}

/// Decodes little-endian UTF-16.
pub fn decode_wide(raw: &Vec<u8>) -> (text: Option<String>)
    ensures
        text is Some <==> utf16_text(utf16_units(raw@)) is Some,
        text is Some ==> text->Some_0@ == utf16_text(utf16_units(raw@))->Some_0,
{
    let count: usize = raw.len() / 2;
    let mut units: Vec<u16> = Vec::new();
    let mut i: usize = 0;
    while i < count
        invariant
            i <= count,
            count == raw@.len() / 2,
            2 * count <= raw@.len() <= usize::MAX,
            units@ == utf16_units(raw@).take(i as int),
        decreases count - i,
    {
        let low: u16 = raw[2 * i] as u16;
        let high: u16 = raw[2 * i + 1] as u16;
        units.push(low + 256 * high);
        proof {
            assert(units@ =~= utf16_units(raw@).take(i + 1));
        }
        i += 1;
    }
    proof {
        assert(units@ =~= utf16_units(raw@));
    }
    from_utf16(&units)
}

/// Where the read of a wide string stands.
#[derive(Clone, Copy, Debug, PartialEq, Eq, Structural)]
pub enum WideStage {
    /// The length is being read.
    Length,
    /// The pointer to the text is being read.
    Pointer,
    /// The text is being read.
    Text,
    /// The read is over.
    Over,
}

/// The read of a wide string.
///
/// Sixteen bytes into the string lies its length in code units, 32 bits. A
/// text of eight bytes or more lies where the 32-bit pointer at the start
/// of the string points; a shorter text lies at the start of the string
/// itself. The text is UTF-16, the low byte first.
#[derive(Clone, Copy, Debug, PartialEq, Eq)]
pub struct ReadWideString {
    /// The address of the string.
    pub address: usize,
    /// Where the read stands.
    pub stage: WideStage,
    /// The length of the text in bytes, once known.
    pub byte_len: usize,
}

/// The error of a wide string whose length could not be read.
pub open spec fn no_length() -> ErrorModel {
    ErrorModel::Other { chain: seq!["No length was read for the wide string."@] }
}

/// The error of a wide string with a negative length.
pub open spec fn negative_length() -> ErrorModel {
    ErrorModel::Other { chain: seq!["The wide string has a negative length."@] }
}

/// The error of a wide string whose text is no UTF-16.
pub open spec fn no_utf16() -> ErrorModel {
    ErrorModel::Other { chain: seq!["The wide string is no UTF-16."@] }
}

impl ReadWideString {
    /// The read at another stage.
    pub open spec fn at(&self, stage: WideStage) -> ReadWideString {
        ReadWideString { stage, ..*self }
    }

    /// The request that reads `size` bytes at `addr`.
    pub open spec fn fetch(addr: usize, size: usize) -> Op {
        Op::ReadBytes { addr, size, timeout: Some(WIDE_STRING_TIMEOUT_NANOS) }
    }

    /// How the read of the wide string at `address` begins: with the read
    /// of its length.
    pub open spec fn begin(address: usize) -> (ReadWideString, StepModel<Seq<char>>) {
        if address + 16 <= usize::MAX {
            (
                ReadWideString { address, stage: WideStage::Length, byte_len: 0 },
                StepModel::Perform(Self::fetch((address + 16) as usize, 4)),
            )
        } else {
            (
                ReadWideString { address, stage: WideStage::Over, byte_len: 0 },
                StepModel::Finished(Err(no_address())),
            )
        }
    }

    /// What the read does with an outcome: the read afterwards, and its
    /// answer.
    pub open spec fn next(&self, reply: MemOpResult<Reply>) -> (ReadWideString, StepModel<Seq<char>>) {
        let over = self.at(WideStage::Over);
        match (self.stage, reply) {
            (WideStage::Over, _) => (*self, StepModel::Finished(Err(unexpected_reply()))),
            (_, Err(error)) => (over, StepModel::Finished(Err(error@))),
            (WideStage::Length, Ok(Reply::Data(bytes))) => match decoded_i32(bytes@) {
                None => (over, StepModel::Finished(Err(no_length()))),
                Some(length) => if length == 0 {
                    (over, StepModel::Finished(Ok(Seq::empty())))
                } else if length < 0 {
                    (over, StepModel::Finished(Err(negative_length())))
                } else if 2 * length >= 8 {
                    (
                        ReadWideString {
                            stage: WideStage::Pointer,
                            byte_len: (2 * length) as usize,
                            ..*self
                        },
                        StepModel::Perform(Self::fetch(self.address, 4)),
                    )
                } else {
                    (
                        ReadWideString {
                            stage: WideStage::Text,
                            byte_len: (2 * length) as usize,
                            ..*self
                        },
                        StepModel::Perform(Self::fetch(self.address, (2 * length) as usize)),
                    )
                },
            },
            (WideStage::Pointer, Ok(Reply::Data(bytes))) => match decoded_u32(bytes@) {
                None => (over, StepModel::Finished(Err(no_pointer()))),
                Some(pointer) => (
                    self.at(WideStage::Text),
                    StepModel::Perform(Self::fetch(pointer as usize, self.byte_len)),
                ),
            },
            (WideStage::Text, Ok(Reply::Data(raw))) => match utf16_text(utf16_units(raw@)) {
                Some(text) => (over, StepModel::Finished(Ok(text))),
                None => (over, StepModel::Finished(Err(no_utf16()))),
            },
            _ => (over, StepModel::Finished(Err(unexpected_reply()))),
        }
    }

    /// Begins the read of the wide string at `address`: hands out the read
    /// and its first answer.
    pub fn start(address: usize) -> (begun: (ReadWideString, Step<String>))
        ensures
            (begun.0, begun.1@) == Self::begin(address),
    {
        match address.checked_add(16) {
            Some(addr) => (
                ReadWideString { address, stage: WideStage::Length, byte_len: 0 },
                Step::Perform(
                    Op::ReadBytes { addr, size: 4, timeout: Some(WIDE_STRING_TIMEOUT_NANOS) },
                ),
            ),
            None => (
                ReadWideString { address, stage: WideStage::Over, byte_len: 0 },
                Step::Finished(Err(MemOpError::new("The address lies beyond the address space."))),
            ),
        }
    }

    /// Takes the outcome of the request that was handed out last and
    /// answers with the next request or with the text.
    pub fn step(&mut self, reply: MemOpResult<Reply>) -> (step: Step<String>)
        ensures
            (*final(self), step@) == old(self).next(reply),
    {
        let stage = self.stage;
        if let WideStage::Over = stage {
            return refuse_reply();
        }
        self.stage = WideStage::Over;
        match reply {
            Err(error) => Step::Finished(Err(error)),
            Ok(Reply::Data(bytes)) => {
                match stage {
                    WideStage::Length => {
                        match <i32 as Transmutable<i32>>::transmute_from(&bytes) {
                            Ok(Some(length)) => {
                                if length == 0 {
                                    let empty = String::new();
                                    Step::Finished(Ok(empty))
                                } else if length < 0 {
                                    Step::Finished(
                                        Err(
                                            MemOpError::new(
                                                "The wide string has a negative length.",
                                            ),
                                        ),
                                    )
                                } else {
                                    let byte_len: usize = 2 * (length as usize);
                                    self.byte_len = byte_len;
                                    if byte_len >= 8 {
                                        self.stage = WideStage::Pointer;
                                        Step::Perform(
                                            Op::ReadBytes {
                                                addr: self.address,
                                                size: 4,
                                                timeout: Some(WIDE_STRING_TIMEOUT_NANOS),
                                            },
                                        )
                                    } else {
                                        self.stage = WideStage::Text;
                                        Step::Perform(
                                            Op::ReadBytes {
                                                addr: self.address,
                                                size: byte_len,
                                                timeout: Some(WIDE_STRING_TIMEOUT_NANOS),
                                            },
                                        )
                                    }
                                }
                            },
                            _ => Step::Finished(
                                Err(MemOpError::new("No length was read for the wide string.")),
                            ),
                        }
                    },
                    WideStage::Pointer => {
                        match pointer_from(&bytes) {
                            Some(pointer) => {
                                self.stage = WideStage::Text;
                                Step::Perform(
                                    Op::ReadBytes {
                                        addr: pointer as usize,
                                        size: self.byte_len,
                                        timeout: Some(WIDE_STRING_TIMEOUT_NANOS),
                                    },
                                )
                            },
                            None => Step::Finished(
                                Err(MemOpError::new("No pointer was read at the base address.")),
                            ),
                        }
                    },
                    _ => {
                        match decode_wide(&bytes) {
                            Some(text) => Step::Finished(Ok(text)),
                            None => Step::Finished(
                                Err(MemOpError::new("The wide string is no UTF-16.")),
                            ),
                        }
                    },
                }
            },
            Ok(_) => refuse_reply(),
        }
    }
}

} // verus!
