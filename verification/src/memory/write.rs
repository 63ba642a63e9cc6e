//! Writing to the victim: raw bytes and typed values.

use crate::error::{ErrorModel, MemOpError, MemOpResult};
use crate::memory::transmute::ZholTyped;
use crate::memory::utils::PAGE_EXECUTE_READWRITE;
use crate::memory::{refuse_reply, unexpected_reply, Op, Reply, Step, StepModel};
use vstd::prelude::*;

verus! {

/// Where a write of bytes stands.
#[derive(Clone, Copy, Debug, PartialEq, Eq, Structural)]
pub enum WriteStage {
    /// The change of the protection to execute, read and write is under
    /// way.
    Unprotecting,
    /// The wait for a writable page before the write is under way.
    FenceBefore,
    /// The write itself is under way.
    Writing,
    /// The return to the protection that was in force is under way.
    Restoring,
    /// The wait for a writable page after the write is under way.
    FenceAfter,
    /// The processor was given away after the write.
    Settling,
    /// The write is over.
    Over,
}

/// The write of bytes to `addr`.
///
/// The protection of the bytes is changed to execute, read and write, the
/// page is waited for, the bytes are copied, the protection is changed
/// back, the page is waited for once more and the processor is given away
/// for a moment. A write that copied fewer bytes than it was given fails.
#[derive(Debug, PartialEq, Eq)]
pub struct WriteBytes {
    /// The address of the first byte.
    pub addr: usize,
    /// The bytes to be written.
    pub bytes: Vec<u8>,
    /// The time that each wait may take, in nanoseconds.
    pub timeout: Option<u64>,
    /// Where the write stands.
    pub stage: WriteStage,
    /// The protection that was in force before the write.
    pub previous: u32,
    /// The number of bytes that were copied.
    pub written: usize,
}

/// The mathematical value of a `WriteBytes`.
pub struct WriteBytesModel {
    pub addr: usize,
    pub bytes: Seq<u8>,
    pub timeout: Option<u64>,
    pub stage: WriteStage,
    pub previous: u32,
    pub written: usize,
}

impl View for WriteBytes {
    type V = WriteBytesModel;

    open spec fn view(&self) -> WriteBytesModel {
        WriteBytesModel {
            addr: self.addr,
            bytes: self.bytes@,
            timeout: self.timeout,
            stage: self.stage,
            previous: self.previous,
            written: self.written,
        }
    }
}

/// The error of a write that copied fewer bytes than it was given.
pub open spec fn incomplete_write() -> ErrorModel {
    ErrorModel::Other { chain: seq!["incomplete write"@] }
}

impl WriteBytesModel {
    /// The request that changes the protection of the bytes.
    pub open spec fn protect(&self, protection: u32) -> Op {
        Op::Protect {
            addr: self.addr,
            size: self.bytes.len() as usize,
            protection,
            timeout: self.timeout,
        }
    }

    /// The request that waits for the page to be writable.
    pub open spec fn fence(&self) -> Op {
        Op::WaitForSafeMem { addr: self.addr, timeout: self.timeout, needs_write: true }
    }

    /// The write at another stage.
    pub open spec fn at(&self, stage: WriteStage) -> WriteBytesModel {
        WriteBytesModel { stage, ..*self }
    }

    /// What the write does with an outcome: the write afterwards, and its
    /// answer.
    pub open spec fn next(&self, reply: MemOpResult<Reply>) -> (WriteBytesModel, StepModel<()>) {
        match (self.stage, reply) {
            (WriteStage::Over, _) => (*self, StepModel::Finished(Err(unexpected_reply()))),
            (_, Err(error)) => (self.at(WriteStage::Over), StepModel::Finished(Err(error@))),
            (WriteStage::Unprotecting, Ok(Reply::Protection(previous))) => (
                WriteBytesModel { stage: WriteStage::FenceBefore, previous, ..*self },
                StepModel::Perform(self.fence()),
            ),
            (WriteStage::FenceBefore, Ok(Reply::Done)) => (
                self.at(WriteStage::Writing),
                StepModel::Perform(
                    Op::WriteMemory {
                        addr: self.addr,
                        size: self.bytes.len() as usize,
                        timeout: self.timeout,
                    },
                ),
            ),
            (WriteStage::Writing, Ok(Reply::Count(written))) => (
                WriteBytesModel { stage: WriteStage::Restoring, written, ..*self },
                StepModel::Perform(self.protect(self.previous)),
            ),
            (WriteStage::Restoring, Ok(Reply::Protection(_))) => if self.written
                != self.bytes.len() {
                (self.at(WriteStage::Over), StepModel::Finished(Err(incomplete_write())))
            } else {
                (self.at(WriteStage::FenceAfter), StepModel::Perform(self.fence()))
            },
            (WriteStage::FenceAfter, Ok(Reply::Done)) => (
                self.at(WriteStage::Settling),
                StepModel::Perform(Op::Yield),
            ),
            (WriteStage::Settling, Ok(Reply::Done)) => (
                self.at(WriteStage::Over),
                StepModel::Finished(Ok(())),
            ),
            _ => (self.at(WriteStage::Over), StepModel::Finished(Err(unexpected_reply()))),
        }
    }
}

impl WriteBytes {
    /// Begins a write of `bytes` to `addr`: hands out the write and its
    /// first request, the change of the protection to execute, read and
    /// write.
    pub fn start(addr: usize, bytes: Vec<u8>, timeout: Option<u64>) -> (begun: (WriteBytes, Op))
        ensures
            begun.0@ == (WriteBytesModel {
                addr,
                bytes: bytes@,
                timeout,
                stage: WriteStage::Unprotecting,
                previous: 0,
                written: 0,
            }),
            begun.1 == begun.0@.protect(PAGE_EXECUTE_READWRITE),
    {
        let size = bytes.len();
        let write = WriteBytes {
            addr,
            bytes,
            timeout,
            stage: WriteStage::Unprotecting,
            previous: 0,
            written: 0,
        };
        (write, Op::Protect { addr, size, protection: PAGE_EXECUTE_READWRITE, timeout })
    }

    /// The bytes that a `WriteMemory` request of this write refers to.
    pub fn payload(&self) -> (bytes: &Vec<u8>)
        ensures
            bytes@ == self@.bytes,
    {
        &self.bytes
    }

    fn fence(&self) -> (op: Op)
        ensures
            op == self@.fence(),
    {
        Op::WaitForSafeMem { addr: self.addr, timeout: self.timeout, needs_write: true }
    }

    /// Takes the outcome of the request that was handed out last and
    /// answers with the next request or with the result of the write.
    pub fn step(&mut self, reply: MemOpResult<Reply>) -> (step: Step<()>)
        ensures
            (final(self)@, step@) == old(self)@.next(reply),
    {
        match self.stage {
            WriteStage::Over => refuse_reply(),
            stage => {
                match reply {
                    Err(error) => {
                        self.stage = WriteStage::Over;
                        Step::Finished(Err(error))
                    },
                    Ok(reply) => {
                        match (stage, reply) {
                            (WriteStage::Unprotecting, Reply::Protection(previous)) => {
                                self.previous = previous;
                                self.stage = WriteStage::FenceBefore;
                                Step::Perform(self.fence())
                            },
                            (WriteStage::FenceBefore, Reply::Done) => {
                                self.stage = WriteStage::Writing;
                                Step::Perform(
                                    Op::WriteMemory {
                                        addr: self.addr,
                                        size: self.bytes.len(),
                                        timeout: self.timeout,
                                    },
                                )
                            },
                            (WriteStage::Writing, Reply::Count(written)) => {
                                self.written = written;
                                self.stage = WriteStage::Restoring;
                                Step::Perform(
                                    Op::Protect {
                                        addr: self.addr,
                                        size: self.bytes.len(),
                                        protection: self.previous,
                                        timeout: self.timeout,
                                    },
                                )
                            },
                            (WriteStage::Restoring, Reply::Protection(_)) => {
                                if self.written != self.bytes.len() {
                                    self.stage = WriteStage::Over;
                                    Step::Finished(Err(MemOpError::new("incomplete write")))
                                } else {
                                    self.stage = WriteStage::FenceAfter;
                                    Step::Perform(self.fence())
                                }
                            },
                            (WriteStage::FenceAfter, Reply::Done) => {
                                self.stage = WriteStage::Settling;
                                Step::Perform(Op::Yield)
                            },
                            (WriteStage::Settling, Reply::Done) => {
                                self.stage = WriteStage::Over;
                                Step::Finished(Ok(()))
                            },
                            _ => {
                                self.stage = WriteStage::Over;
                                refuse_reply()
                            },
                        }
                    },
                }
            },
        }
    }
}

impl WriteBytesModel {
    /// A write that is past the check of its count has copied every
    /// byte.
    pub open spec fn checked(&self) -> bool {
        self.stage is FenceAfter || self.stage is Settling ==> self.written == self.bytes.len()
    }
}

/// A write ends well only when every byte was copied: the count is checked
/// before the last wait, stays as it is from then on, and only the last
/// step of a checked write reports success.
pub proof fn lemma_write_ends_well_when_complete(write: WriteBytesModel, reply: MemOpResult<Reply>)
    requires
        write.checked(),
    ensures
        write.next(reply).0.checked(),
        write.next(reply).1 == StepModel::<()>::Finished(Ok(())) ==> write.stage is Settling
            && write.written == write.bytes.len(),
        write.stage is Restoring && write.written != write.bytes.len() && reply is Ok
            ==> write.next(reply).1 is Finished && write.next(reply).1 != StepModel::<
            (),
        >::Finished(Ok(())),
{
}

/// Turns a value into the bytes that are written for it.
pub fn write_value<T: ZholTyped<T>>(value: &T) -> (result: MemOpResult<Vec<u8>>)
    ensures
        call_ensures(T::byte_repr, (value,), result),
{
    value.byte_repr()
}

} // verus!
