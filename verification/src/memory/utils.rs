//! The page-safety rules: which pages may be read or written, and how long
//! to wait for one that may not.

use crate::error::{
    ErrorModel, MemOpError, MemOpResult, INVALID_ALLOCATION_TYPE, INVALID_PAGE_TYPE,
    INVALID_PROTECTION_FLAGS,
};
use crate::memory::{refuse_reply, unexpected_reply, Op, Reply, Step, StepModel};
use vstd::prelude::*;
use vstd::slice::slice_subrange;
use vstd::string::StringSliceAdditionalSpecFns;
use vstd::utf8::{decode_utf8, valid_utf8};

verus! {

/// Page state: the page is committed.
pub const MEM_COMMIT: u32 = 0x1000;

/// Page type: the page is private to the process.
pub const MEM_PRIVATE: u32 = 0x20000;

/// Page type: the page is mapped from a section.
pub const MEM_MAPPED: u32 = 0x40000;

/// Page protection: no access at all.
pub const PAGE_NOACCESS: u32 = 0x01;

/// Page protection: read only.
pub const PAGE_READONLY: u32 = 0x02;

/// Page protection: read and write.
pub const PAGE_READWRITE: u32 = 0x04;

/// Page protection: read, and copy on write.
pub const PAGE_WRITECOPY: u32 = 0x08;

/// Page protection: execute and read.
pub const PAGE_EXECUTE_READ: u32 = 0x20;

/// Page protection: execute, read and write.
pub const PAGE_EXECUTE_READWRITE: u32 = 0x40;

/// Page protection: execute, read, and copy on write.
pub const PAGE_EXECUTE_WRITECOPY: u32 = 0x80;

/// Page protection modifier: the page is a guard page.
pub const PAGE_GUARD: u32 = 0x100;

/// What the operating system reports of the page at an address.
#[derive(Clone, Copy, Debug, PartialEq, Eq, Structural)]
pub struct PageInfo {
    /// The allocation state, `MEM_COMMIT` for a committed page.
    pub state: u32,
    /// The protection flags.
    pub protect: u32,
    /// The page type; zero where the page has none.
    pub page_type: u32,
}

/// Whether the protection holds one of the flags that allow reading.
pub open spec fn readable(protection: u32) -> bool {
    ||| protection & PAGE_READONLY == PAGE_READONLY
    ||| protection & PAGE_READWRITE == PAGE_READWRITE
    ||| protection & PAGE_WRITECOPY == PAGE_WRITECOPY
    ||| protection & PAGE_EXECUTE_READ == PAGE_EXECUTE_READ
    ||| protection & PAGE_EXECUTE_READWRITE == PAGE_EXECUTE_READWRITE
    ||| protection & PAGE_EXECUTE_WRITECOPY == PAGE_EXECUTE_WRITECOPY
}

/// Whether the protection holds one of the flags that allow writing.
pub open spec fn writable(protection: u32) -> bool {
    protection & (PAGE_READWRITE | PAGE_WRITECOPY | PAGE_EXECUTE_READWRITE
        | PAGE_EXECUTE_WRITECOPY) != 0
}

/// Whether the protection marks a guard page or forbids every access.
pub open spec fn guarded(protection: u32) -> bool {
    protection & PAGE_GUARD != 0 || protection & PAGE_NOACCESS != 0
}

/// The page is not committed, which only a write minds.
pub open spec fn allocation_invalid(info: PageInfo, needs_write: bool) -> bool {
    needs_write && info.state != MEM_COMMIT
}

/// The protection does not allow the access.
pub open spec fn protection_invalid(info: PageInfo, needs_write: bool) -> bool {
    ||| guarded(info.protect)
    ||| !readable(info.protect)
    ||| needs_write && !writable(info.protect)
    ||| needs_write && copy_on_write_data(info)
}

/// The page type does not allow the access, which only a write minds.
pub open spec fn type_invalid(info: PageInfo, needs_write: bool) -> bool {
    needs_write && (info.page_type == 0 || copy_on_write_data(info))
}

/// A mapped or private page whose protection asks for copy on write.
pub open spec fn copy_on_write_data(info: PageInfo) -> bool {
    (info.page_type == MEM_MAPPED || info.page_type == MEM_PRIVATE) && info.protect
        & PAGE_WRITECOPY != 0
}

/// The mask with the bit of each attribute that is wrong.
pub open spec fn mask_of(allocation: bool, protection: bool, page_type: bool) -> u8 {
    ((if allocation {
        1int
    } else {
        0int
    }) + (if protection {
        2int
    } else {
        0int
    }) + (if page_type {
        4int
    } else {
        0int
    })) as u8
}

/// The mask of what keeps the page from being accessed; zero where nothing
/// does.
pub open spec fn safety_mask(info: PageInfo, needs_write: bool) -> u8 {
    mask_of(
        allocation_invalid(info, needs_write),
        protection_invalid(info, needs_write),
        type_invalid(info, needs_write),
    )
}

/// Whether the page may be accessed.
pub open spec fn page_safe(info: PageInfo, needs_write: bool) -> bool {
    safety_mask(info, needs_write) == 0
}

/// Whether the protection allows reading.
pub fn is_readable(protection: u32) -> (yes: bool)
    ensures
        yes == readable(protection),
{
    (protection & PAGE_READONLY) == PAGE_READONLY || (protection & PAGE_READWRITE)
        == PAGE_READWRITE || (protection & PAGE_WRITECOPY) == PAGE_WRITECOPY || (protection
        & PAGE_EXECUTE_READ) == PAGE_EXECUTE_READ || (protection & PAGE_EXECUTE_READWRITE)
        == PAGE_EXECUTE_READWRITE || (protection & PAGE_EXECUTE_WRITECOPY)
        == PAGE_EXECUTE_WRITECOPY
}

/// Whether the protection allows writing.
pub fn is_writable(protection: u32) -> (yes: bool)
    ensures
        yes == writable(protection),
{
    (protection & (PAGE_READWRITE | PAGE_WRITECOPY | PAGE_EXECUTE_READWRITE
        | PAGE_EXECUTE_WRITECOPY)) != 0
}

fn is_guarded(protection: u32) -> (yes: bool)
    ensures
        yes == guarded(protection),
{
    (protection & PAGE_GUARD) != 0 || (protection & PAGE_NOACCESS) != 0
}

fn build_mask(allocation: bool, protection: bool, page_type: bool) -> (mask: u8)
    ensures
        mask == mask_of(allocation, protection, page_type),
        mask <= 7,
{
    let mut mask: u8 = 0;
    if allocation {
        mask = mask + INVALID_ALLOCATION_TYPE;
    }
    if protection {
        mask = mask + INVALID_PROTECTION_FLAGS;
    }
    if page_type {
        mask = mask + INVALID_PAGE_TYPE;
    }
    mask
}

/// The mask of what keeps the page from being written.
pub fn mbi_safe_write(mbi: PageInfo) -> (mask: u8)
    ensures
        mask == safety_mask(mbi, true),
{
    let copy_on_write = (mbi.page_type == MEM_MAPPED || mbi.page_type == MEM_PRIVATE) && (
    mbi.protect & PAGE_WRITECOPY) != 0;
    let allocation = mbi.state != MEM_COMMIT;
    let page_type = mbi.page_type == 0 || copy_on_write;
    let protection = is_guarded(mbi.protect) || !is_readable(mbi.protect) || !is_writable(
        mbi.protect,
    ) || copy_on_write;
    build_mask(allocation, protection, page_type)
}

/// The mask of what keeps the page from being read.
pub fn mbi_safe_read(mbi: PageInfo) -> (mask: u8)
    ensures
        mask == safety_mask(mbi, false),
{
    let protection = is_guarded(mbi.protect) || !is_readable(mbi.protect);
    build_mask(false, protection, false)
}

/// Decides whether a page may be read or, with `needs_write`, written.
///
/// The answer is `Ok(true)` for a page that may be accessed. For any other
/// page it is a `MemoryStateInvalid` error that carries the page's
/// attributes and the mask of those that are wrong.
pub fn mbi_safety_check(mbi: PageInfo, needs_write: bool) -> (result: MemOpResult<bool>)
    ensures
        page_safe(mbi, needs_write) ==> result == Ok::<bool, MemOpError>(true),
        !page_safe(mbi, needs_write) ==> result is Err && result->Err_0@ == (
        crate::error::ErrorModel::MemoryStateInvalid {
            state: mbi.state,
            protect: mbi.protect,
            page_type: mbi.page_type,
            mask: safety_mask(mbi, needs_write),
            context: Some(check_context(needs_write)),
        }),
{
    let mask: u8 = if needs_write {
        mbi_safe_write(mbi)
    } else {
        mbi_safe_read(mbi)
    };
    if mask == 0 {
        Ok(true)
    } else {
        let context = if needs_write {
            "mbi_safety_check, needs_write: true"
        } else {
            "mbi_safety_check, needs_write: false"
        };
        Err(
            MemOpError::MemoryStateInvalid {
                state: mbi.state,
                protect: mbi.protect,
                page_type: mbi.page_type,
                mask,
                context: Some(context.to_owned()),
            },
        )
    }
}

/// The context that a failed safety check carries.
pub open spec fn check_context(needs_write: bool) -> Seq<char> {
    if needs_write {
        "mbi_safety_check, needs_write: true"@
    } else {
        "mbi_safety_check, needs_write: false"@
    }
}

/// A protection that allows writing allows reading.
pub proof fn lemma_writable_is_readable(protection: u32)
    requires
        writable(protection),
    ensures
        readable(protection),
{
    assert(protection & (0x04u32 | 0x08u32 | 0x40u32 | 0x80u32) != 0 ==> protection & 0x04
        == 0x04 || protection & 0x08 == 0x08 || protection & 0x40 == 0x40 || protection & 0x80
        == 0x80) by (bit_vector);
}

/// A page that may be written may be read.
pub proof fn lemma_write_safe_is_read_safe(info: PageInfo)
    requires
        page_safe(info, true),
    ensures
        page_safe(info, false),
{
}

/// Each bit of the mask stands for one attribute: the mask tells which of
/// allocation, protection and page type were wrong.
pub proof fn lemma_mask_bits(info: PageInfo, needs_write: bool)
    ensures
        safety_mask(info, needs_write) & INVALID_ALLOCATION_TYPE != 0 <==> allocation_invalid(
            info,
            needs_write,
        ),
        safety_mask(info, needs_write) & INVALID_PROTECTION_FLAGS != 0 <==> protection_invalid(
            info,
            needs_write,
        ),
        safety_mask(info, needs_write) & INVALID_PAGE_TYPE != 0 <==> type_invalid(
            info,
            needs_write,
        ),
        safety_mask(info, needs_write) <= 7,
{
    let mask = safety_mask(info, needs_write);
    assert(mask <= 7);
    assert(mask <= 7 ==> (mask & 1 != 0 <==> (mask == 1 || mask == 3 || mask == 5 || mask == 7)))
        by (bit_vector);
    assert(mask <= 7 ==> (mask & 2 != 0 <==> (mask == 2 || mask == 3 || mask == 6 || mask == 7)))
        by (bit_vector);
    assert(mask <= 7 ==> (mask & 4 != 0 <==> (mask == 4 || mask == 5 || mask == 6 || mask == 7)))
        by (bit_vector);
}

/// A text of at most 255 bytes in a buffer of 256, as C keeps it: the text
/// ends before the first zero byte.
#[derive(Clone, Copy, Debug, PartialEq, Eq)]
pub struct CStr256 {
    data: [u8; 256],
}

/// The number of bytes before the first zero byte, or the number of all
/// bytes where none is zero.
pub open spec fn text_len(bytes: Seq<u8>) -> nat
    decreases bytes.len(),
{
    if bytes.len() == 0 || bytes[0] == 0 {
        0
    } else {
        1 + text_len(bytes.drop_first())
    }
}

/// The bytes before the first zero byte.
pub open spec fn text_bytes(bytes: Seq<u8>) -> Seq<u8> {
    bytes.take(text_len(bytes) as int)
}

/// `bytes` followed by zero bytes, 256 bytes in all.
pub open spec fn zero_padded(bytes: Seq<u8>) -> Seq<u8> {
    Seq::new(
        256,
        |i: int|
            if i < bytes.len() {
                bytes[i]
            } else {
                0u8
            },
    )
}

/// Where no byte before `end` is zero and the bytes end at `end` or hold a
/// zero there, `end` is the length of the text.
pub proof fn lemma_text_len(bytes: Seq<u8>, end: int)
    requires
        0 <= end <= bytes.len(),
        forall|k: int| 0 <= k < end ==> bytes[k] != 0,
        end < bytes.len() ==> bytes[end] == 0,
    ensures
        text_len(bytes) == end,
    decreases end,
{
    if end > 0 {
        let rest = bytes.drop_first();
        assert forall|k: int| 0 <= k < end - 1 implies rest[k] != 0 by {
            assert(rest[k] == bytes[k + 1]);
        }
        lemma_text_len(rest, end - 1);
    }
}

/// `core::str::from_utf8`: the text that well-formed UTF-8 spells; nothing
/// for bytes that are no UTF-8.
#[verifier::external_body]
pub(crate) fn from_utf8(bytes: &[u8]) -> (text: Option<&str>)
    ensures
        valid_utf8(bytes@) ==> text is Some && text->Some_0.spec_bytes() == bytes@,
        !valid_utf8(bytes@) ==> text is None,
{
    core::str::from_utf8(bytes).ok()
}

impl View for CStr256 {
    type V = Seq<u8>;

    closed spec fn view(&self) -> Seq<u8> {
        self.data@
    }
}

impl CStr256 {
    /// The text in the buffer: what stands before the first zero byte, or
    /// the empty text where that is no UTF-8.
    pub fn as_str(&self) -> (text: &str)
        ensures
            self@.len() == 256,
            valid_utf8(text_bytes(self@)) ==> text.spec_bytes() == text_bytes(self@),
            !valid_utf8(text_bytes(self@)) ==> text@ == Seq::<char>::empty(),
    {
        let mut end: usize = 0;
        while end < 256 && self.data[end] != 0
            invariant
                end <= 256,
                forall|k: int| 0 <= k < end ==> self.data@[k] != 0,
            decreases 256 - end,
        {
            end += 1;
        }
        proof {
            lemma_text_len(self.data@, end as int);
        }
        let prefix = slice_subrange(self.data.as_slice(), 0, end);
        proof {
            assert(prefix@ =~= text_bytes(self@));
        }
        match from_utf8(prefix) {
            Some(text) => text,
            None => {
                let empty = "";
                proof {
                    reveal_strlit("");
                    assert(empty@ =~= Seq::<char>::empty());
                }
                empty
            },
        }
    }

    /// Puts a text into a buffer. A text of more than 255 bytes does not
    /// fit and is refused.
    pub fn try_from_str(s: &str) -> (result: Result<CStr256, MemOpError>)
        ensures
            s.spec_bytes().len() > 255 ==> result is Err && result->Err_0@ == (
            crate::error::ErrorModel::Other { chain: seq!["string too long for CStr256"@] }),
            s.spec_bytes().len() <= 255 ==> result is Ok && result->Ok_0@ == zero_padded(
                s.spec_bytes(),
            ),
    {
        let bytes = s.as_bytes();
        if bytes.len() > 255 {
            return Err(MemOpError::new("string too long for CStr256"));
        }
        let mut data = [0u8;256];
        let mut i: usize = 0;
        while i < bytes.len()
            invariant
                i <= bytes@.len() <= 255,
                data@.len() == 256,
                forall|k: int| 0 <= k < i ==> data@[k] == bytes@[k],
                forall|k: int| i <= k < 256 ==> data@[k] == 0,
            decreases bytes@.len() - i,
        {
            data[i] = bytes[i];
            i += 1;
        }
        proof {
            assert(data@ =~= zero_padded(bytes@));
        }
        Ok(CStr256 { data })
    }
}

/// The first 255 bytes of a text, or all of it where it has fewer.
pub open spec fn clipped(bytes: Seq<u8>) -> Seq<u8> {
    if bytes.len() <= 255 {
        bytes
    } else {
        bytes.take(255)
    }
}

impl<'a> From<&'a str> for CStr256 {
    /// Puts a text into a buffer and cuts off what does not fit: the
    /// buffer holds the first 255 bytes of the text.
    fn from(s: &'a str) -> (result: CStr256)
        ensures
            result@ == zero_padded(clipped(s.spec_bytes())),
    {
        let bytes = s.as_bytes();
        let length: usize = if bytes.len() <= 255 {
            bytes.len()
        } else {
            255
        };
        let mut data = [0u8;256];
        let mut i: usize = 0;
        while i < length
            invariant
                i <= length <= 255,
                length <= bytes@.len(),
                data@.len() == 256,
                forall|k: int| 0 <= k < i ==> data@[k] == bytes@[k],
                forall|k: int| i <= k < 256 ==> data@[k] == 0,
            decreases length - i,
        {
            data[i] = bytes[i];
            i += 1;
        }
        proof {
            assert(data@ =~= zero_padded(clipped(bytes@)));
        }
        CStr256 { data }
    }
}

impl<'a> vstd::std_specs::convert::FromSpecImpl<&'a str> for CStr256 {
    open spec fn obeys_from_spec() -> bool {
        false
    }

    open spec fn from_spec(s: &'a str) -> CStr256 {
        arbitrary()
    }
}

/// A text without a zero byte that fits into the buffer is read back from
/// it as it was put in.
pub proof fn lemma_cstr_round_trip(text: Seq<char>)
    requires
        vstd::utf8::encode_utf8(text).len() <= 255,
        forall|k: int|
            0 <= k < vstd::utf8::encode_utf8(text).len() ==> vstd::utf8::encode_utf8(text)[k] != 0,
    ensures
        text_bytes(zero_padded(vstd::utf8::encode_utf8(text))) == vstd::utf8::encode_utf8(text),
        valid_utf8(text_bytes(zero_padded(vstd::utf8::encode_utf8(text)))),
        decode_utf8(text_bytes(zero_padded(vstd::utf8::encode_utf8(text)))) == text,
{
    broadcast use vstd::utf8::encode_utf8_valid_utf8, vstd::utf8::encode_utf8_decode_utf8;

    let bytes = vstd::utf8::encode_utf8(text);
    lemma_text_len(zero_padded(bytes), bytes.len() as int);
    assert(text_bytes(zero_padded(bytes)) =~= bytes);
}

/// The time that a wait for safe memory may take where the caller names
/// none: ten seconds, in nanoseconds.
pub const DEFAULT_WAIT_NANOS: u64 = 10_000_000_000;

/// Where a wait for safe memory stands.
#[derive(Clone, Copy, Debug, PartialEq, Eq, Structural)]
pub enum WaitStage {
    /// The page was asked for and its state is awaited.
    Polling,
    /// The thread is parked and the time that has passed is awaited.
    Parking,
    /// The wait is over.
    Over,
}

/// The wait for a page that may be accessed.
///
/// The page is polled. While it may not be accessed, the thread is parked
/// for what is left of the time allowed and the page is polled again. The
/// wait ends well with the first poll that finds the page safe, and with
/// `TimeoutReached` once the time allowed has passed.
#[derive(Clone, Copy, Debug, PartialEq, Eq)]
pub struct WaitForSafeMem {
    /// The address whose page is waited for.
    pub address: usize,
    /// Whether the page is to be written.
    pub needs_write: bool,
    /// The time allowed in nanoseconds; `None` for the default.
    pub timeout: Option<u64>,
    /// The time that had passed when the thread last woke up.
    pub elapsed: u64,
    /// Where the wait stands.
    pub stage: WaitStage,
}

/// The context of the error that ends a wait for safe memory.
pub open spec fn wait_context() -> Seq<char> {
    "Reached timeout before memory region was readable"@
}

impl WaitForSafeMem {
    /// The time that the wait may take.
    pub open spec fn budget(&self) -> u64 {
        match self.timeout {
            Some(nanos) => nanos,
            None => DEFAULT_WAIT_NANOS,
        }
    }

    /// The time that is left of the budget.
    pub open spec fn remaining(&self) -> u64 {
        if self.elapsed >= self.budget() {
            0
        } else {
            (self.budget() - self.elapsed) as u64
        }
    }

    /// The request that polls the page.
    pub open spec fn poll(&self) -> Op {
        Op::QueryPage { addr: self.address, timeout: self.timeout }
    }

    /// The wait at another stage.
    pub open spec fn at(&self, stage: WaitStage) -> WaitForSafeMem {
        WaitForSafeMem { stage, ..*self }
    }

    /// The error that ends a wait that ran out of time.
    pub open spec fn timed_out(&self) -> ErrorModel {
        ErrorModel::TimeoutReached { timeout: self.timeout, context: Some(wait_context()) }
    }

    /// What the wait does with an outcome: the wait afterwards, and its
    /// answer.
    pub open spec fn next(&self, reply: MemOpResult<Reply>) -> (WaitForSafeMem, StepModel<()>) {
        match (self.stage, reply) {
            (WaitStage::Over, _) => (*self, StepModel::Finished(Err(unexpected_reply()))),
            (_, Err(error)) => (self.at(WaitStage::Over), StepModel::Finished(Err(error@))),
            (WaitStage::Polling, Ok(Reply::Page(info))) => if page_safe(info, self.needs_write) {
                (self.at(WaitStage::Over), StepModel::Finished(Ok(())))
            } else {
                (
                    self.at(WaitStage::Parking),
                    StepModel::Perform(Op::Park { nanos: self.remaining() }),
                )
            },
            (WaitStage::Parking, Ok(Reply::Elapsed(nanos))) => if nanos >= self.budget() {
                (self.at(WaitStage::Over), StepModel::Finished(Err(self.timed_out())))
            } else {
                (
                    WaitForSafeMem { elapsed: nanos, stage: WaitStage::Polling, ..*self },
                    StepModel::Perform(self.poll()),
                )
            },
            _ => (self.at(WaitStage::Over), StepModel::Finished(Err(unexpected_reply()))),
        }
    }

    /// Begins a wait for the page at `address`: hands out the wait and its
    /// first request, a poll of the page.
    pub fn start(address: usize, timeout: Option<u64>, needs_write: bool) -> (begun: (
        WaitForSafeMem,
        Op,
    ))
        ensures
            begun.0 == (WaitForSafeMem {
                address,
                needs_write,
                timeout,
                elapsed: 0,
                stage: WaitStage::Polling,
            }),
            begun.1 == begun.0.poll(),
    {
        let wait = WaitForSafeMem {
            address,
            needs_write,
            timeout,
            elapsed: 0,
            stage: WaitStage::Polling,
        };
        (wait, Op::QueryPage { addr: address, timeout })
    }

    /// Takes the outcome of the request that was handed out last and
    /// answers with the next request or with the result of the wait.
    pub fn step(&mut self, reply: MemOpResult<Reply>) -> (step: Step<()>)
        ensures
            (*final(self), step@) == old(self).next(reply),
    {
        let budget: u64 = match self.timeout {
            Some(nanos) => nanos,
            None => DEFAULT_WAIT_NANOS,
        };
        match self.stage {
            WaitStage::Over => refuse_reply(),
            WaitStage::Polling => {
                match reply {
                    Err(error) => {
                        self.stage = WaitStage::Over;
                        Step::Finished(Err(error))
                    },
                    Ok(Reply::Page(info)) => {
                        if mbi_safety_check(info, self.needs_write).is_ok() {
                            self.stage = WaitStage::Over;
                            Step::Finished(Ok(()))
                        } else {
                            let nanos: u64 = if self.elapsed >= budget {
                                0
                            } else {
                                budget - self.elapsed
                            };
                            self.stage = WaitStage::Parking;
                            Step::Perform(Op::Park { nanos })
                        }
                    },
                    Ok(_) => {
                        self.stage = WaitStage::Over;
                        refuse_reply()
                    },
                }
            },
            WaitStage::Parking => {
                match reply {
                    Err(error) => {
                        self.stage = WaitStage::Over;
                        Step::Finished(Err(error))
                    },
                    Ok(Reply::Elapsed(nanos)) => {
                        if nanos >= budget {
                            self.stage = WaitStage::Over;
                            Step::Finished(
                                Err(
                                    MemOpError::TimeoutReached {
                                        timeout: self.timeout,
                                        context: Some(
                                            "Reached timeout before memory region was readable".to_owned(),
                                        ),
                                    },
                                ),
                            )
                        } else {
                            self.elapsed = nanos;
                            self.stage = WaitStage::Polling;
                            Step::Perform(Op::QueryPage { addr: self.address, timeout: self.timeout })
                        }
                    },
                    Ok(_) => {
                        self.stage = WaitStage::Over;
                        refuse_reply()
                    },
                }
            },
        }
    }
}

/// A wait ends well only with a poll that finds the page safe.
pub proof fn lemma_wait_ends_on_safe_page(wait: WaitForSafeMem, reply: MemOpResult<Reply>)
    requires
        wait.next(reply).1 == StepModel::<()>::Finished(Ok(())),
    ensures
        wait.stage is Polling,
        reply matches Ok(Reply::Page(info)) && page_safe(info, wait.needs_write),
{
}

/// Without a budget nothing is waited for: a wait with the timeout zero
/// that finds the page unsafe parks for no time and then ends with
/// `TimeoutReached`, whatever time is reported to it.
pub proof fn lemma_wait_without_budget(
    address: usize,
    needs_write: bool,
    info: PageInfo,
    nanos: u64,
)
    requires
        !page_safe(info, needs_write),
    ensures
        ({
            let begun = WaitForSafeMem {
                address,
                needs_write,
                timeout: Some(0u64),
                elapsed: 0,
                stage: WaitStage::Polling,
            };
            let polled = begun.next(Ok(Reply::Page(info)));
            let woken = polled.0.next(Ok(Reply::Elapsed(nanos)));
            &&& polled.1 == StepModel::<()>::Perform(Op::Park { nanos: 0 })
            &&& woken.1 == StepModel::<()>::Finished(Err(begun.timed_out()))
        }),
{
}

} // verus!
