//! Values that describe the victim's memory and the operations on it.

pub mod read;
pub mod transmute;
pub mod utils;
pub mod write;

use crate::error::{ErrorModel, MemOpError, MemOpResult};
use crate::memory::transmute::{decoded_u32, pointer_from, ZholTyped};
use crate::memory::utils::PageInfo;
use vstd::prelude::*;

verus! {

/// One position of a signature: `Some(b)` stands for the byte `b`, `None` for
/// a wildcard that matches any byte.
pub type Byte = Option<u8>;

/// The victim's memory as far as it matters here: the byte at each address
/// that holds one.
pub type Memory = Map<int, u8>;

/// The memory after `bytes` were written at `addr`.
pub open spec fn write_at(memory: Memory, addr: int, bytes: Seq<u8>) -> Memory {
    Map::new(
        |a: int| memory.contains_key(a) || addr <= a < addr + bytes.len(),
        |a: int|
            if addr <= a < addr + bytes.len() {
                bytes[a - addr]
            } else {
                memory[a]
            },
    )
}

/// The `len` bytes that the memory holds from `addr` on.
pub open spec fn read_at(memory: Memory, addr: int, len: nat) -> Seq<u8> {
    Seq::new(len, |i: int| memory[addr + i])
}

/// Bytes to be written at an address of the victim.
#[derive(Debug, PartialEq, Eq)]
pub struct WriteRequest {
    /// Where the first byte goes.
    pub addr: usize,
    /// What is written.
    pub bytes: Vec<u8>,
}

impl WriteRequest {
    /// The memory after this request was carried out.
    pub open spec fn applied_to(&self, memory: Memory) -> Memory {
        write_at(memory, self.addr as int, self.bytes@)
    }
}

/// A span of memory that was allocated in the victim.
///
/// The span is handed back to the victim at most once: `release` names it
/// the first time it is called and never again.
#[derive(Debug, PartialEq, Eq)]
pub struct MemoryRegion {
    /// The address of the first byte; never zero.
    pub addr: usize,
    /// The number of bytes.
    pub size: usize,
    /// Whether the span was handed back to the victim already.
    pub released: bool,
}

impl MemoryRegion {
    /// Whether the span was handed back already.
    pub open spec fn is_released(&self) -> bool {
        self.released
    }

    /// A region has a base address.
    pub open spec fn well_formed(&self) -> bool {
        self.addr != 0
    }

    /// Takes what an allocation in the victim returned. A null address is no
    /// region: the allocation failed.
    pub fn new(addr: usize, size: usize) -> (region: Option<MemoryRegion>)
        ensures
            addr == 0 ==> region is None,
            addr != 0 ==> (region matches Some(r) && r.addr == addr && r.size == size
                && !r.is_released() && r.well_formed()),
    {
        if addr == 0 {
            None
        } else {
            Some(MemoryRegion { addr, size, released: false })
        }
    }

    /// The request that fills the region with zeros.
    pub fn zero(&self) -> (request: WriteRequest)
        ensures
            request.addr == self.addr,
            request.bytes@ == Seq::new(self.size as nat, |i: int| 0u8),
    {
        let mut bytes: Vec<u8> = Vec::new();
        let mut i: usize = 0;
        while i < self.size
            invariant
                i <= self.size,
                bytes@ == Seq::new(i as nat, |k: int| 0u8),
            decreases self.size - i,
        {
            bytes.push(0u8);
            proof {
                assert(bytes@ =~= Seq::new((i + 1) as nat, |k: int| 0u8));
            }
            i += 1;
        }
        WriteRequest { addr: self.addr, bytes }
    }

    /// The span that the next call of `release` names.
    pub open spec fn released_span(&self) -> Option<(usize, usize)> {
        if self.released {
            None
        } else {
            Some((self.addr, self.size))
        }
    }

    /// The region after a call of `release`.
    pub open spec fn after_release(&self) -> MemoryRegion {
        MemoryRegion { addr: self.addr, size: self.size, released: true }
    }

    /// How many of the next `calls` calls of `release` name a span.
    pub open spec fn spans_released(&self, calls: nat) -> nat
        decreases calls,
    {
        if calls == 0 {
            0
        } else {
            (if self.released_span() is Some {
                1nat
            } else {
                0nat
            }) + self.after_release().spans_released((calls - 1) as nat)
        }
    }

    /// Gives up the region. The first call names the span that is to be
    /// freed in the victim, as address and size; every later call names
    /// nothing.
    pub fn release(&mut self) -> (span: Option<(usize, usize)>)
        ensures
            *final(self) == old(self).after_release(),
            span == old(self).released_span(),
            final(self).is_released(),
            final(self).addr == old(self).addr,
            final(self).size == old(self).size,
            old(self).is_released() ==> span is None,
            !old(self).is_released() ==> span == Some((old(self).addr, old(self).size)),
    {
        if self.released {
            None
        } else {
            self.released = true;
            Some((self.addr, self.size))
        }
    }
}

/// Region release: however often a region that was not yet given up is
/// released, the span is named exactly once; of a region that was given up
/// it is never named again.
pub proof fn lemma_release_once(region: MemoryRegion, calls: nat)
    ensures
        region.spans_released(calls) == if calls > 0 && !region.is_released() {
            1nat
        } else {
            0nat
        },
    decreases calls,
{
    if calls > 0 {
        lemma_release_once(region.after_release(), (calls - 1) as nat);
    }
}

/// What one typed read or write refers to.
#[derive(Clone, Copy, Debug, PartialEq, Eq)]
pub struct MemOpContext {
    /// The base address; zero where the variable region of the hook is
    /// meant.
    pub addr: usize,
    /// The distance of the value from the base, or from what the base
    /// points to.
    pub offset: usize,
    /// Whether the base holds a 32-bit pointer to follow.
    pub at_pointer: bool,
    /// The time that a wait may take, in nanoseconds; `None` for the
    /// default.
    pub timeout: Option<u64>,
}

impl MemOpContext {
    /// Describes one memory operation.
    pub fn new(addr: usize, offset: usize, at_pointer: bool, timeout: Option<u64>) -> (context:
        MemOpContext)
        ensures
            context.addr == addr,
            context.offset == offset,
            context.at_pointer == at_pointer,
            context.timeout == timeout,
    {
        MemOpContext { addr, offset, at_pointer, timeout }
    }

    /// The base address of the operation: the context's own where it has
    /// one, else `fallback`.
    pub open spec fn base(&self, fallback: usize) -> usize {
        if self.addr != 0 {
            self.addr
        } else {
            fallback
        }
    }

    /// The base address of the operation: the context's own where it has
    /// one, else `fallback`, the start of the hook's variable region.
    pub fn base_address(&self, fallback: usize) -> (base: usize)
        ensures
            base == self.base(fallback),
    {
        if self.addr != 0 {
            self.addr
        } else {
            fallback
        }
    }
}

/// A request that the engine makes of its driver. The driver carries it
/// out against the victim and hands the outcome back as a `Reply`.
///
/// The requests of the first group are single calls of the operating
/// system. Those of the second group are operations of this library: the
/// driver runs the engine of that operation to its end.
#[derive(Clone, Copy, Debug, PartialEq, Eq, Structural)]
pub enum Op {
    /// Report the page at `addr`; answered by `Reply::Page`.
    QueryPage { addr: usize, timeout: Option<u64> },
    /// Change the protection of `size` bytes from `addr` on; answered by
    /// `Reply::Protection` with the protection that was in force before.
    Protect { addr: usize, size: usize, protection: u32, timeout: Option<u64> },
    /// Copy `size` bytes from `addr` on out of the victim; answered by
    /// `Reply::Read`.
    ReadMemory { addr: usize, size: usize, timeout: Option<u64> },
    /// Copy the `size` bytes of the engine's payload to `addr` in the
    /// victim; answered by `Reply::Count` with the number of bytes written.
    WriteMemory { addr: usize, size: usize, timeout: Option<u64> },
    /// Park the thread for at most `nanos` nanoseconds; answered by
    /// `Reply::Elapsed` with the time since the wait began.
    Park { nanos: u64 },
    /// Give the processor away for a moment; answered by `Reply::Done`.
    Yield,
    /// Wait until the page at `addr` may be accessed; answered by
    /// `Reply::Done`.
    WaitForSafeMem { addr: usize, timeout: Option<u64>, needs_write: bool },
    /// Read `size` bytes from `addr` on; answered by `Reply::Data`.
    ReadBytes { addr: usize, size: usize, timeout: Option<u64> },
    /// Write the `size` bytes of the engine's payload to `addr`; answered
    /// by `Reply::Done`.
    WriteBytes { addr: usize, size: usize, timeout: Option<u64> },
    /// Look up the module that the hook names; answered by
    /// `Reply::Module`.
    FindModule { stem: bool, timeout: Option<u64> },
    /// Report where a module lies; answered by `Reply::Image`.
    ModuleInfo { module: usize, timeout: Option<u64> },
    /// List the modules of the victim; answered by `Reply::Modules`.
    EnumModules { timeout: Option<u64> },
    /// Report the file name of a module; answered by `Reply::Name`.
    ModuleName { module: usize, timeout: Option<u64> },
    /// Allocate `size` bytes in the victim, committed and reserved, with
    /// the protection execute, read and write; answered by
    /// `Reply::Allocated`.
    Allocate { size: usize, timeout: Option<u64> },
    /// Free the `size` bytes at `addr` in the victim; answered by
    /// `Reply::Done`.
    Free { addr: usize, size: usize },
    /// Have the hook's author build the trampoline and the jump for the
    /// patch site; answered by `Reply::Built`.
    BuildHook,
    /// Take the lock of the hook's record for reading and report where the
    /// variable region begins; answered by `Reply::Base`.
    BorrowData,
    /// Give the lock of the hook's record back; answered by `Reply::Done`.
    ReturnData,
}

/// What the driver hands back for a request that was carried out.
#[derive(Debug, PartialEq, Eq)]
pub enum Reply {
    /// The request was carried out and has nothing to report.
    Done,
    /// The state of a page.
    Page(PageInfo),
    /// The protection that was in force before it was changed.
    Protection(u32),
    /// What a single read delivered: the buffer that was offered, and how
    /// many bytes of it were filled.
    Read { buffer: Vec<u8>, transferred: usize },
    /// How many bytes a single write delivered.
    Count(usize),
    /// The time since a wait began, in nanoseconds.
    Elapsed(u64),
    /// The bytes that were read.
    Data(Vec<u8>),
    /// The module that was looked up, where there is one.
    Module(Option<usize>),
    /// The base address of a module and the size of its image.
    Image { base: usize, size: usize },
    /// The modules of the victim.
    Modules(Vec<usize>),
    /// The buffer that received the file name of a module, and the length
    /// that was reported for the name.
    Name { raw: Vec<u8>, length: u32 },
    /// The address of what was allocated.
    Allocated(usize),
    /// The trampoline and the jump for the patch site.
    Built { hook_bytes: Vec<u8>, jump_bytes: Vec<u8> },
    /// The address at which the variable region begins.
    Base(usize),
}

/// What an engine answers when it is handed an outcome: the next request,
/// or the result of the whole operation.
#[derive(Debug, PartialEq, Eq)]
pub enum Step<T> {
    /// The driver is to carry this request out next.
    Perform(Op),
    /// The operation is over.
    Finished(MemOpResult<T>),
}

/// The mathematical value of a `Step`.
pub enum StepModel<T> {
    Perform(Op),
    Finished(Result<T, ErrorModel>),
}

impl<T: View> View for Step<T> {
    type V = StepModel<T::V>;

    open spec fn view(&self) -> StepModel<T::V> {
        match *self {
            Step::Perform(op) => StepModel::Perform(op),
            Step::Finished(Ok(value)) => StepModel::Finished(Ok(value@)),
            Step::Finished(Err(error)) => StepModel::Finished(Err(error@)),
        }
    }
}

/// The error of an engine that is handed an outcome it did not ask for.
pub open spec fn unexpected_reply() -> ErrorModel {
    ErrorModel::Other { chain: seq!["The reply does not answer the request."@] }
}

/// Ends an operation because the outcome handed in answers no request of
/// it.
pub fn refuse_reply<T: View>() -> (step: Step<T>)
    ensures
        step@ == StepModel::<T::V>::Finished(Err(unexpected_reply())),
{
    Step::Finished(Err(MemOpError::new("The reply does not answer the request.")))
}

/// Where a typed read or write stands.
#[derive(Clone, Copy, Debug, PartialEq, Eq, Structural)]
pub enum AccessStage {
    /// The lock of the hook's record is being taken.
    Borrowing,
    /// The lock is held and the pointer at the base is being read.
    Following,
    /// The lock is being given back.
    Returning,
    /// The lock is given back and the value itself is being read or
    /// written.
    Transferring,
    /// The operation is over.
    Over,
}

/// A typed read or write through the pointer chain of a hook.
///
/// The base is the context's own address or, without one, the start of the
/// hook's variable region, which is read under the lock of the hook's
/// record. Where the context says so, the 32-bit pointer at the base is
/// followed, still under the lock. Then the lock is given back, and only
/// after that is the value read from, or written to, the address that lies
/// `offset` bytes on.
#[derive(Debug, PartialEq, Eq)]
pub struct Access {
    /// What the operation refers to.
    pub context: MemOpContext,
    /// Whether the value is written.
    pub writes: bool,
    /// The number of bytes of a value that is read.
    pub size: usize,
    /// The bytes of a value that is written.
    pub payload: Vec<u8>,
    /// Where the operation stands.
    pub stage: AccessStage,
    /// The address that the offset is counted from, once known.
    pub origin: usize,
    /// Why the operation fails, while the lock is given back.
    pub failure: Option<MemOpError>,
}

/// The mathematical value of an `Access`.
pub struct AccessModel {
    pub context: MemOpContext,
    pub writes: bool,
    pub size: usize,
    pub payload: Seq<u8>,
    pub stage: AccessStage,
    pub origin: usize,
    pub failure: Option<ErrorModel>,
}

impl View for Access {
    type V = AccessModel;

    open spec fn view(&self) -> AccessModel {
        AccessModel {
            context: self.context,
            writes: self.writes,
            size: self.size,
            payload: self.payload@,
            stage: self.stage,
            origin: self.origin,
            failure: match self.failure {
                Some(error) => Some(error@),
                None => None,
            },
        }
    }
}

/// The error of a typed operation whose pointer could not be read.
pub open spec fn no_pointer() -> ErrorModel {
    ErrorModel::Other { chain: seq!["No pointer was read at the base address."@] }
}

/// The error of a typed operation whose address lies beyond the last one.
pub open spec fn no_address() -> ErrorModel {
    ErrorModel::Other { chain: seq!["The address lies beyond the address space."@] }
}

impl AccessModel {
    /// The operation at another stage.
    pub open spec fn at(&self, stage: AccessStage) -> AccessModel {
        AccessModel { stage, ..*self }
    }

    /// The operation while the lock is given back because of `error`.
    pub open spec fn failing(&self, error: ErrorModel) -> (AccessModel, StepModel<Seq<u8>>) {
        (
            AccessModel { stage: AccessStage::Returning, failure: Some(error), ..*self },
            StepModel::Perform(Op::ReturnData),
        )
    }

    /// The request that reads or writes the value at `addr`.
    pub open spec fn transfer(&self, addr: usize) -> Op {
        if self.writes {
            Op::WriteBytes {
                addr,
                size: self.payload.len() as usize,
                timeout: self.context.timeout,
            }
        } else {
            Op::ReadBytes { addr, size: self.size, timeout: self.context.timeout }
        }
    }

    /// What the operation does with an outcome: the operation afterwards,
    /// and its answer.
    pub open spec fn next(&self, reply: MemOpResult<Reply>) -> (AccessModel, StepModel<Seq<u8>>) {
        match (self.stage, reply) {
            (AccessStage::Over, _) => (*self, StepModel::Finished(Err(unexpected_reply()))),
            (AccessStage::Borrowing, Ok(Reply::Base(start))) => {
                let base = self.context.base(start);
                if self.context.at_pointer {
                    (
                        AccessModel { stage: AccessStage::Following, origin: base, ..*self },
                        StepModel::Perform(
                            Op::ReadBytes { addr: base, size: 4, timeout: self.context.timeout },
                        ),
                    )
                } else {
                    (
                        AccessModel { stage: AccessStage::Returning, origin: base, ..*self },
                        StepModel::Perform(Op::ReturnData),
                    )
                }
            },
            (AccessStage::Following, Ok(Reply::Data(bytes))) => match decoded_u32(bytes@) {
                Some(pointer) => (
                    AccessModel {
                        stage: AccessStage::Returning,
                        origin: pointer as usize,
                        ..*self
                    },
                    StepModel::Perform(Op::ReturnData),
                ),
                None => self.failing(no_pointer()),
            },
            (AccessStage::Following, Ok(_)) => self.failing(unexpected_reply()),
            (AccessStage::Following, Err(error)) => self.failing(error@),
            (AccessStage::Returning, _) => match self.failure {
                Some(error) => (
                    AccessModel { stage: AccessStage::Over, failure: None, ..*self },
                    StepModel::Finished(Err(error)),
                ),
                None => if self.origin + self.context.offset <= usize::MAX {
                    (
                        self.at(AccessStage::Transferring),
                        StepModel::Perform(
                            self.transfer((self.origin + self.context.offset) as usize),
                        ),
                    )
                } else {
                    (self.at(AccessStage::Over), StepModel::Finished(Err(no_address())))
                },
            },
            (_, Err(error)) => (self.at(AccessStage::Over), StepModel::Finished(Err(error@))),
            (AccessStage::Transferring, Ok(Reply::Data(bytes))) => if self.writes {
                (self.at(AccessStage::Over), StepModel::Finished(Err(unexpected_reply())))
            } else {
                (self.at(AccessStage::Over), StepModel::Finished(Ok(bytes@)))
            },
            (AccessStage::Transferring, Ok(Reply::Done)) => if self.writes {
                (self.at(AccessStage::Over), StepModel::Finished(Ok(Seq::empty())))
            } else {
                (self.at(AccessStage::Over), StepModel::Finished(Err(unexpected_reply())))
            },
            _ => (self.at(AccessStage::Over), StepModel::Finished(Err(unexpected_reply()))),
        }
    }
}

impl Access {
    /// Begins the read of a value of `size` bytes: hands out the operation
    /// and its first request, the lock of the hook's record.
    pub fn start_read(context: &MemOpContext, size: usize) -> (begun: (Access, Op))
        ensures
            begun.0@ == (AccessModel {
                context: *context,
                writes: false,
                size,
                payload: Seq::empty(),
                stage: AccessStage::Borrowing,
                origin: 0,
                failure: None,
            }),
            begun.1 == Op::BorrowData,
    {
        let access = Access {
            context: *context,
            writes: false,
            size,
            payload: Vec::new(),
            stage: AccessStage::Borrowing,
            origin: 0,
            failure: None,
        };
        (access, Op::BorrowData)
    }

    /// Begins the write of a value that is given as its bytes: hands out
    /// the operation and its first request, the lock of the hook's record.
    pub fn start_write(context: &MemOpContext, payload: Vec<u8>) -> (begun: (Access, Op))
        ensures
            begun.0@ == (AccessModel {
                context: *context,
                writes: true,
                size: 0,
                payload: payload@,
                stage: AccessStage::Borrowing,
                origin: 0,
                failure: None,
            }),
            begun.1 == Op::BorrowData,
    {
        let access = Access {
            context: *context,
            writes: true,
            size: 0,
            payload,
            stage: AccessStage::Borrowing,
            origin: 0,
            failure: None,
        };
        (access, Op::BorrowData)
    }

    /// The bytes that the `WriteBytes` request of a write refers to.
    pub fn payload(&self) -> (bytes: &Vec<u8>)
        ensures
            bytes@ == self@.payload,
    {
        &self.payload
    }

    fn fail(&mut self, error: MemOpError) -> (step: Step<Vec<u8>>)
        ensures
            (final(self)@, step@) == old(self)@.failing(error@),
    {
        self.failure = Some(error);
        self.stage = AccessStage::Returning;
        Step::Perform(Op::ReturnData)
    }

    fn finish<T: View>(&mut self, step: Step<T>) -> (out: Step<T>)
        ensures
            final(self)@ == old(self)@.at(AccessStage::Over),
            out == step,
    {
        self.stage = AccessStage::Over;
        step
    }

    /// Takes the outcome of the request that was handed out last and
    /// answers with the next request or with the result: the bytes of the
    /// value that was read, or no bytes after a write.
    pub fn step(&mut self, reply: MemOpResult<Reply>) -> (step: Step<Vec<u8>>)
        ensures
            (final(self)@, step@) == old(self)@.next(reply),
    {
        match self.stage {
            AccessStage::Over => refuse_reply(),
            AccessStage::Borrowing => {
                match reply {
                    Ok(Reply::Base(start)) => {
                        let base = self.context.base_address(start);
                        self.origin = base;
                        if self.context.at_pointer {
                            self.stage = AccessStage::Following;
                            Step::Perform(
                                Op::ReadBytes { addr: base, size: 4, timeout: self.context.timeout },
                            )
                        } else {
                            self.stage = AccessStage::Returning;
                            Step::Perform(Op::ReturnData)
                        }
                    },
                    Err(error) => self.finish(Step::Finished(Err(error))),
                    Ok(_) => self.finish(refuse_reply()),
                }
            },
            AccessStage::Following => {
                match reply {
                    Ok(Reply::Data(bytes)) => {
                        match pointer_from(&bytes) {
                            Some(pointer) => {
                                self.origin = pointer as usize;
                                self.stage = AccessStage::Returning;
                                Step::Perform(Op::ReturnData)
                            },
                            None => self.fail(
                                MemOpError::new("No pointer was read at the base address."),
                            ),
                        }
                    },
                    Ok(_) => self.fail(MemOpError::new("The reply does not answer the request.")),
                    Err(error) => self.fail(error),
                }
            },
            AccessStage::Returning => {
                let mut failure: Option<MemOpError> = None;
                core::mem::swap(&mut failure, &mut self.failure);
                match failure {
                    Some(error) => self.finish(Step::Finished(Err(error))),
                    None => {
                        match self.origin.checked_add(self.context.offset) {
                            Some(addr) => {
                                self.stage = AccessStage::Transferring;
                                if self.writes {
                                    Step::Perform(
                                        Op::WriteBytes {
                                            addr,
                                            size: self.payload.len(),
                                            timeout: self.context.timeout,
                                        },
                                    )
                                } else {
                                    Step::Perform(
                                        Op::ReadBytes {
                                            addr,
                                            size: self.size,
                                            timeout: self.context.timeout,
                                        },
                                    )
                                }
                            },
                            None => self.finish(
                                Step::Finished(
                                    Err(
                                        MemOpError::new(
                                            "The address lies beyond the address space.",
                                        ),
                                    ),
                                ),
                            ),
                        }
                    },
                }
            },
            AccessStage::Transferring => {
                let writes = self.writes;
                self.stage = AccessStage::Over;
                match reply {
                    Err(error) => Step::Finished(Err(error)),
                    Ok(Reply::Data(bytes)) => {
                        if writes {
                            refuse_reply()
                        } else {
                            Step::Finished(Ok(bytes))
                        }
                    },
                    Ok(Reply::Done) => {
                        if writes {
                            Step::Finished(Ok(Vec::new()))
                        } else {
                            refuse_reply()
                        }
                    },
                    Ok(_) => refuse_reply(),
                }
            },
        }
    }
}

/// Begins the typed read of a `T` that `context` refers to.
pub fn read<T: ZholTyped<T>>(context: &MemOpContext) -> (begun: (Access, Op))
    ensures
        begun.0@ == (AccessModel {
            context: *context,
            writes: false,
            size: vstd::layout::size_of::<T>() as usize,
            payload: Seq::empty(),
            stage: AccessStage::Borrowing,
            origin: 0,
            failure: None,
        }),
        begun.1 == Op::BorrowData,
{
    Access::start_read(context, core::mem::size_of::<T>())
}

/// Begins the typed write of `value` to what `context` refers to. It fails
/// where the value cannot be turned into bytes.
pub fn write<T: ZholTyped<T>>(value: T, context: &MemOpContext) -> (begun: MemOpResult<
    (Access, Op),
>)
    ensures
        exists|bytes: MemOpResult<Vec<u8>>|
            call_ensures(T::byte_repr, (&value,), bytes) && match bytes {
                Err(error) => begun == Err::<(Access, Op), MemOpError>(error),
                Ok(payload) => begun is Ok && begun->Ok_0.0@ == (AccessModel {
                    context: *context,
                    writes: true,
                    size: 0,
                    payload: payload@,
                    stage: AccessStage::Borrowing,
                    origin: 0,
                    failure: None,
                }) && begun->Ok_0.1 == Op::BorrowData,
            },
{
    match value.byte_repr() {
        Ok(payload) => Ok(Access::start_write(context, payload)),
        Err(error) => Err(error),
    }
}

/// Lock discipline: the value itself is read or written only when the lock
/// of the hook's record was given back, and under the lock nothing is asked
/// of the victim but the pointer at the base, and that only where the
/// context asks to follow one.
pub proof fn lemma_lock_discipline(access: AccessModel, reply: MemOpResult<Reply>)
    ensures
        access.next(reply).0.stage is Transferring ==> access.stage is Returning,
        access.next(reply).0.stage is Following ==> access.stage is Borrowing
            && access.context.at_pointer,
        access.next(reply).1 matches StepModel::Perform(op) ==> {
            ||| op is BorrowData
            ||| op is ReturnData
            ||| access.next(reply).0.stage is Transferring
            ||| access.next(reply).0.stage is Following && access.context.at_pointer
        },
        !access.context.at_pointer ==> (access.next(reply).1 matches StepModel::Perform(op) ==> op
            is ReturnData || access.next(reply).0.stage is Transferring),
{
}

} // verus!
