//! The errors of a memory operation, and the context that callers attach to
//! them on the way up.

use vstd::prelude::*;
use vstd::string::StringExecFns;

verus! {

/// Bit of a page-state mask: the page is not committed.
pub const INVALID_ALLOCATION_TYPE: u8 = 0b001;

/// Bit of a page-state mask: the protection flags do not allow the access.
pub const INVALID_PROTECTION_FLAGS: u8 = 0b010;

/// Bit of a page-state mask: the page type does not allow the access.
pub const INVALID_PAGE_TYPE: u8 = 0b100;

/// What can go wrong in a memory operation.
#[derive(Debug, PartialEq, Eq)]
pub enum MemOpError {
    /// A wait ran out of time. `timeout` is the budget in nanoseconds where
    /// the caller gave one; `context` says which wait it was.
    TimeoutReached { timeout: Option<u64>, context: Option<String> },
    /// A page is in no state for the access. `mask` holds the bits
    /// `INVALID_ALLOCATION_TYPE`, `INVALID_PROTECTION_FLAGS` and
    /// `INVALID_PAGE_TYPE` of the attributes that were wrong.
    MemoryStateInvalid { state: u32, protect: u32, page_type: u32, mask: u8, context: Option<String> },
    /// A signature does not occur in the module that was searched.
    PatternNotFound,
    /// The operating system refused a call.
    WinAPI { code: i32, message: String, context: Option<String> },
    /// Any other failure: a chain of messages, the outermost first.
    Other { chain: Vec<String> },
}

/// The result of a memory operation.
pub type MemOpResult<T> = Result<T, MemOpError>;

/// The mathematical value of a `MemOpError`: the same variants over
/// sequences of characters.
pub enum ErrorModel {
    TimeoutReached { timeout: Option<u64>, context: Option<Seq<char>> },
    MemoryStateInvalid { state: u32, protect: u32, page_type: u32, mask: u8, context: Option<Seq<char>> },
    PatternNotFound,
    WinAPI { code: i32, message: Seq<char>, context: Option<Seq<char>> },
    Other { chain: Seq<Seq<char>> },
}

/// The characters of an optional text.
pub open spec fn text_of(text: Option<String>) -> Option<Seq<char>> {
    match text {
        Some(s) => Some(s@),
        None => None,
    }
}

/// The characters of each text of a chain.
pub open spec fn texts_of(chain: Seq<String>) -> Seq<Seq<char>> {
    Seq::new(chain.len(), |i: int| chain[i]@)
}

impl View for MemOpError {
    type V = ErrorModel;

    open spec fn view(&self) -> ErrorModel {
        match *self {
            MemOpError::TimeoutReached { timeout, context } => ErrorModel::TimeoutReached {
                timeout,
                context: text_of(context),
            },
            MemOpError::MemoryStateInvalid {
                state,
                protect,
                page_type,
                mask,
                context,
            } => ErrorModel::MemoryStateInvalid {
                state,
                protect,
                page_type,
                mask,
                context: text_of(context),
            },
            MemOpError::PatternNotFound => ErrorModel::PatternNotFound,
            MemOpError::WinAPI { code, message, context } => ErrorModel::WinAPI {
                code,
                message: message@,
                context: text_of(context),
            },
            MemOpError::Other { chain } => ErrorModel::Other { chain: texts_of(chain@) },
        }
    }
}

impl MemOpError {
    /// An `Other` error with one message.
    pub fn new(message: &str) -> (error: MemOpError)
        ensures
            error@ == (ErrorModel::Other { chain: seq![message@] }),
    {
        let mut chain: Vec<String> = Vec::new();
        chain.push(message.to_owned());
        proof {
            assert(texts_of(chain@) =~= seq![message@]);
        }
        MemOpError::Other { chain }
    }

    /// The message chain of an `Other` error; `None` for every other variant.
    pub fn into_inner(self) -> (chain: Option<Vec<String>>)
        ensures
            match self {
                MemOpError::Other { chain: inner } => chain == Some(inner),
                _ => chain is None,
            },
    {
        match self {
            MemOpError::Other { chain } => Some(chain),
            _ => None,
        }
    }

    /// Whether this is a `TimeoutReached` error.
    pub fn is_timeout(&self) -> (yes: bool)
        ensures
            yes == (self is TimeoutReached),
    {
        matches!(self, MemOpError::TimeoutReached { .. })
    }

    /// Whether this is a `MemoryStateInvalid` error.
    pub fn is_memory_state_invalid(&self) -> (yes: bool)
        ensures
            yes == (self is MemoryStateInvalid),
    {
        matches!(self, MemOpError::MemoryStateInvalid { .. })
    }

    /// Whether this is a `WinAPI` error.
    pub fn is_winapi(&self) -> (yes: bool)
        ensures
            yes == (self is WinAPI),
    {
        matches!(self, MemOpError::WinAPI { .. })
    }
}

/// The context of an error once `context` was put in front of it.
pub open spec fn prepended(context: Seq<char>, former: Option<Seq<char>>) -> Seq<char> {
    match former {
        Some(text) => context + ": "@ + text,
        None => context,
    }
}

impl ErrorModel {
    /// The error with `context` put in front. The variant stays: an error
    /// that carries a context gets it prepended, the chain of an `Other`
    /// error gets a new first message, and `PatternNotFound`, which carries
    /// nothing, stays as it is.
    pub open spec fn with_context(self, context: Seq<char>) -> ErrorModel {
        match self {
            ErrorModel::TimeoutReached { timeout, context: former } => ErrorModel::TimeoutReached {
                timeout,
                context: Some(prepended(context, former)),
            },
            ErrorModel::MemoryStateInvalid {
                state,
                protect,
                page_type,
                mask,
                context: former,
            } => ErrorModel::MemoryStateInvalid {
                state,
                protect,
                page_type,
                mask,
                context: Some(prepended(context, former)),
            },
            ErrorModel::PatternNotFound => ErrorModel::PatternNotFound,
            ErrorModel::WinAPI { code, message, context: former } => ErrorModel::WinAPI {
                code,
                message,
                context: Some(prepended(context, former)),
            },
            ErrorModel::Other { chain } => ErrorModel::Other { chain: seq![context] + chain },
        }
    }

    /// The messages of a chain, joined by a colon and a blank.
    pub open spec fn joined(chain: Seq<Seq<char>>) -> Seq<char>
        decreases chain.len(),
    {
        if chain.len() == 0 {
            Seq::empty()
        } else if chain.len() == 1 {
            chain[0]
        } else {
            Self::joined(chain.drop_last()) + ": "@ + chain.last()
        }
    }

    /// The attributes of a page that the mask marks as wrong, each with its
    /// name and value, joined by a comma and a blank.
    pub open spec fn invalid_states(state: u32, protect: u32, page_type: u32, mask: u8) -> Seq<
        char,
    > {
        let allocation = if mask & INVALID_ALLOCATION_TYPE != 0 {
            seq![named("VIRTUAL_ALLOCATION_TYPE"@, state)]
        } else {
            Seq::empty()
        };
        let protection = if mask & INVALID_PROTECTION_FLAGS != 0 {
            seq![named("PAGE_PROTECTION_FLAGS"@, protect)]
        } else {
            Seq::empty()
        };
        let kind = if mask & INVALID_PAGE_TYPE != 0 {
            seq![named("PAGE_TYPE"@, page_type)]
        } else {
            Seq::empty()
        };
        Self::listed(allocation + protection + kind)
    }

    /// The texts of a list, joined by a comma and a blank.
    pub open spec fn listed(items: Seq<Seq<char>>) -> Seq<char>
        decreases items.len(),
    {
        if items.len() == 0 {
            Seq::empty()
        } else if items.len() == 1 {
            items[0]
        } else {
            Self::listed(items.drop_last()) + ", "@ + items.last()
        }
    }

    /// The one line that names the root cause of the error.
    pub open spec fn root_cause(self) -> Seq<char> {
        match self {
            ErrorModel::TimeoutReached { timeout: Some(nanos), context: Some(context) } => {
                "Timeout operation of context \""@ + context
                    + "\" failed to complete within timeout \""@ + duration_text(nanos) + "\"."@
            },
            ErrorModel::TimeoutReached { timeout: Some(nanos), context: None } => {
                "Timeout operation failed to complete within timeout \""@ + duration_text(nanos)
                    + "\"."@
            },
            ErrorModel::TimeoutReached { timeout: None, context: Some(context) } => {
                "Timeout operation of context \""@ + context
                    + "\" failed to complete with its timeout."@
            },
            ErrorModel::TimeoutReached { timeout: None, context: None } => {
                "Timeout operation failed to complete within timeout."@
            },
            ErrorModel::MemoryStateInvalid {
                state,
                protect,
                page_type,
                mask,
                context: Some(context),
            } => {
                "Memory operation of context \""@ + context
                    + "\" failed with following invalid states: \""@ + Self::invalid_states(
                    state,
                    protect,
                    page_type,
                    mask,
                ) + "\""@
            },
            ErrorModel::MemoryStateInvalid { state, protect, page_type, mask, context: None } => {
                "Memory operation failed with the following invalid states: \""@
                    + Self::invalid_states(state, protect, page_type, mask) + "\""@
            },
            ErrorModel::PatternNotFound => "Pattern not found"@,
            ErrorModel::WinAPI { code, message, context: Some(context) } => {
                "Windows API call with context \""@ + context
                    + "\" failed with: \"Windows Error: "@ + hex8(code as u32) + " - "@ + message
                    + "\""@
            },
            ErrorModel::WinAPI { code, message, context: None } => {
                "Windows API call failed with: \"Windows Error: "@ + hex8(code as u32) + " - "@
                    + message + "\""@
            },
            ErrorModel::Other { chain } => Self::joined(chain),
        }
    }
}

/// An attribute of a page as it is shown: its name, and its value in
/// round brackets.
pub open spec fn named(name: Seq<char>, value: u32) -> Seq<char> {
    name + "("@ + decimal(value as nat) + ")"@
}

/// The text of a digit below sixteen, the letters in upper case.
pub open spec fn digit_text(digit: int) -> Seq<char> {
    if digit == 0 {
        "0"@
    } else if digit == 1 {
        "1"@
    } else if digit == 2 {
        "2"@
    } else if digit == 3 {
        "3"@
    } else if digit == 4 {
        "4"@
    } else if digit == 5 {
        "5"@
    } else if digit == 6 {
        "6"@
    } else if digit == 7 {
        "7"@
    } else if digit == 8 {
        "8"@
    } else if digit == 9 {
        "9"@
    } else if digit == 10 {
        "A"@
    } else if digit == 11 {
        "B"@
    } else if digit == 12 {
        "C"@
    } else if digit == 13 {
        "D"@
    } else if digit == 14 {
        "E"@
    } else {
        "F"@
    }
}

/// A number in decimal digits.
pub open spec fn decimal(value: nat) -> Seq<char>
    decreases value,
{
    if value < 10 {
        digit_text(value as int)
    } else {
        decimal(value / 10) + digit_text((value % 10) as int)
    }
}

/// The lowest `digits` hexadecimal digits of a number, the highest first.
pub open spec fn hex(value: nat, digits: nat) -> Seq<char>
    decreases digits,
{
    if digits == 0 {
        Seq::empty()
    } else {
        hex(value / 16, (digits - 1) as nat) + digit_text((value % 16) as int)
    }
}

/// A 32-bit number in eight hexadecimal digits.
pub open spec fn hex8(value: u32) -> Seq<char> {
    hex(value as nat, 8)
}

/// The text that `Duration` shows for a time in nanoseconds when it is
/// formatted for debugging.
pub uninterp spec fn duration_text(nanos: u64) -> Seq<char>;

/// The `HRESULT` that stands for a Win32 error code: the code itself where
/// it is zero or already an `HRESULT`, else the code as a failure of the
/// Win32 facility.
pub open spec fn win32_hresult(code: u32) -> i32 {
    if code == 0 || code >= 0x8000_0000 {
        code as i32
    } else {
        ((code & 0x0000_FFFF) | 0x8007_0000) as i32
    }
}

/// `Duration`'s `Debug` output for a time of `nanos` nanoseconds.
#[verifier::external_body]
fn debug_duration(nanos: u64) -> (text: String)
    ensures
        text@ == duration_text(nanos),
{
    format!("{:#?}", std::time::Duration::from_nanos(nanos))
}

/// `windows_result::HRESULT::from_win32`: maps a Win32 error code to an
/// `HRESULT`.
#[verifier::external_body]
fn hresult_from_win32(code: u32) -> (hresult: i32)
    ensures
        hresult == win32_hresult(code),
{
    windows_result::HRESULT::from_win32(code).0
}

fn digit_str(digit: u8) -> (text: &'static str)
    requires
        digit < 16,
    ensures
        text@ == digit_text(digit as int),
{
    match digit {
        0 => "0",
        1 => "1",
        2 => "2",
        3 => "3",
        4 => "4",
        5 => "5",
        6 => "6",
        7 => "7",
        8 => "8",
        9 => "9",
        10 => "A",
        11 => "B",
        12 => "C",
        13 => "D",
        14 => "E",
        _ => "F",
    }
}

/// Renders a number in decimal digits.
pub fn to_decimal(value: u64) -> (text: String)
    ensures
        text@ == decimal(value as nat),
    decreases value,
{
    if value < 10 {
        digit_str(value as u8).to_owned()
    } else {
        let mut text = to_decimal(value / 10);
        text.append(digit_str((value % 10) as u8));
        text
    }
}

fn to_hex(value: u32, digits: u8) -> (text: String)
    ensures
        text@ == hex(value as nat, digits as nat),
    decreases digits,
{
    if digits == 0 {
        String::new()
    } else {
        let mut text = to_hex(value / 16, digits - 1);
        text.append(digit_str((value % 16) as u8));
        text
    }
}

/// Renders a 32-bit number in eight hexadecimal digits, the letters in
/// upper case.
pub fn to_hex8(value: u32) -> (text: String)
    ensures
        text@ == hex8(value),
{
    to_hex(value, 8)
}

fn prepend(context: &str, former: Option<String>) -> (text: String)
    ensures
        text@ == prepended(context@, text_of(former)),
{
    let mut text = context.to_owned();
    if let Some(former) = former {
        text.append(": ");
        text.append(former.as_str());
    }
    text
}

fn named_value(name: &str, value: u32) -> (text: String)
    ensures
        text@ == named(name@, value),
{
    let mut text = name.to_owned();
    text.append("(");
    text.append(to_decimal(value as u64).as_str());
    text.append(")");
    text
}

fn list_item(list: &mut String, count: &mut usize, item: String, Ghost(items): Ghost<Seq<Seq<char>>>)
    requires
        *old(count) == items.len(),
        *old(count) < 3,
        old(list)@ == ErrorModel::listed(items),
    ensures
        *final(count) == items.len() + 1,
        final(list)@ == ErrorModel::listed(items.push(item@)),
{
    if *count > 0 {
        list.append(", ");
        list.append(item.as_str());
        proof {
            assert(items.push(item@).drop_last() =~= items);
        }
    } else {
        list.append(item.as_str());
        proof {
            assert(items =~= Seq::empty());
            assert(list@ =~= item@);
        }
    }
    *count = *count + 1;
}

fn render_states(state: u32, protect: u32, page_type: u32, mask: u8) -> (text: String)
    ensures
        text@ == ErrorModel::invalid_states(state, protect, page_type, mask),
{
    let mut list = String::new();
    let mut count: usize = 0;
    let ghost mut items: Seq<Seq<char>> = Seq::empty();
    if mask & INVALID_ALLOCATION_TYPE != 0 {
        let item = named_value("VIRTUAL_ALLOCATION_TYPE", state);
        list_item(&mut list, &mut count, item, Ghost(items));
        proof {
            items = items.push(item@);
        }
    }
    if mask & INVALID_PROTECTION_FLAGS != 0 {
        let item = named_value("PAGE_PROTECTION_FLAGS", protect);
        list_item(&mut list, &mut count, item, Ghost(items));
        proof {
            items = items.push(item@);
        }
    }
    if mask & INVALID_PAGE_TYPE != 0 {
        let item = named_value("PAGE_TYPE", page_type);
        list_item(&mut list, &mut count, item, Ghost(items));
        proof {
            items = items.push(item@);
        }
    }
    proof {
        let allocation = if mask & INVALID_ALLOCATION_TYPE != 0 {
            seq![named("VIRTUAL_ALLOCATION_TYPE"@, state)]
        } else {
            Seq::empty()
        };
        let protection = if mask & INVALID_PROTECTION_FLAGS != 0 {
            seq![named("PAGE_PROTECTION_FLAGS"@, protect)]
        } else {
            Seq::empty()
        };
        let kind = if mask & INVALID_PAGE_TYPE != 0 {
            seq![named("PAGE_TYPE"@, page_type)]
        } else {
            Seq::empty()
        };
        assert(items =~= allocation + protection + kind);
    }
    list
}

fn join_chain(chain: &Vec<String>) -> (text: String)
    ensures
        text@ == ErrorModel::joined(texts_of(chain@)),
{
    let mut text = String::new();
    let mut i: usize = 0;
    while i < chain.len()
        invariant
            i <= chain@.len(),
            text@ == ErrorModel::joined(texts_of(chain@).take(i as int)),
        decreases chain@.len() - i,
    {
        proof {
            assert(texts_of(chain@).take(i + 1).drop_last() =~= texts_of(chain@).take(i as int));
        }
        if i > 0 {
            text.append(": ");
        }
        text.append(chain[i].as_str());
        proof {
            if i == 0 {
                assert(text@ =~= chain@[0]@);
            }
        }
        i += 1;
    }
    proof {
        assert(texts_of(chain@).take(chain@.len() as int) =~= texts_of(chain@));
    }
    text
}

impl MemOpError {
    /// The error of a handle that could not be had within `timeout`.
    pub fn handle_timeout(timeout: Option<u64>) -> (error: MemOpError)
        ensures
            error@ == (ErrorModel::TimeoutReached { timeout, context: None }),
    {
        MemOpError::TimeoutReached { timeout, context: None }
    }

    /// The error of a call that the operating system refused with the
    /// Win32 error `code`, which it describes as `message`.
    pub fn from_win32(code: u32, message: String) -> (error: MemOpError)
        ensures
            error@ == (ErrorModel::WinAPI {
                code: win32_hresult(code),
                message: message@,
                context: None,
            }),
    {
        MemOpError::WinAPI { code: hresult_from_win32(code), message, context: None }
    }

    /// Puts `context` in front of the error. The variant stays as it is.
    pub fn add_context(self, context: &str) -> (error: MemOpError)
        ensures
            error@ == self@.with_context(context@),
    {
        match self {
            MemOpError::TimeoutReached { timeout, context: former } => MemOpError::TimeoutReached {
                timeout,
                context: Some(prepend(context, former)),
            },
            MemOpError::MemoryStateInvalid {
                state,
                protect,
                page_type,
                mask,
                context: former,
            } => MemOpError::MemoryStateInvalid {
                state,
                protect,
                page_type,
                mask,
                context: Some(prepend(context, former)),
            },
            MemOpError::PatternNotFound => MemOpError::PatternNotFound,
            MemOpError::WinAPI { code, message, context: former } => MemOpError::WinAPI {
                code,
                message,
                context: Some(prepend(context, former)),
            },
            MemOpError::Other { chain } => {
                let mut chain = chain;
                chain.insert(0, context.to_owned());
                proof {
                    assert(texts_of(chain@) =~= seq![context@] + texts_of(self->chain@));
                }
                MemOpError::Other { chain }
            },
        }
    }

    /// Renders the error as the one line that names its root cause.
    pub fn root_cause_string(&self) -> (text: String)
        ensures
            text@ == self@.root_cause(),
    {
        match self {
            MemOpError::TimeoutReached { timeout: Some(nanos), context: Some(context) } => {
                let mut text = "Timeout operation of context \"".to_owned();
                text.append(context.as_str());
                text.append("\" failed to complete within timeout \"");
                text.append(debug_duration(*nanos).as_str());
                text.append("\".");
                text
            },
            MemOpError::TimeoutReached { timeout: Some(nanos), context: None } => {
                let mut text = "Timeout operation failed to complete within timeout \"".to_owned();
                text.append(debug_duration(*nanos).as_str());
                text.append("\".");
                text
            },
            MemOpError::TimeoutReached { timeout: None, context: Some(context) } => {
                let mut text = "Timeout operation of context \"".to_owned();
                text.append(context.as_str());
                text.append("\" failed to complete with its timeout.");
                text
            },
            MemOpError::TimeoutReached { timeout: None, context: None } => {
                "Timeout operation failed to complete within timeout.".to_owned()
            },
            MemOpError::MemoryStateInvalid {
                state,
                protect,
                page_type,
                mask,
                context: Some(context),
            } => {
                let mut text = "Memory operation of context \"".to_owned();
                text.append(context.as_str());
                text.append("\" failed with following invalid states: \"");
                text.append(render_states(*state, *protect, *page_type, *mask).as_str());
                text.append("\"");
                text
            },
            MemOpError::MemoryStateInvalid { state, protect, page_type, mask, context: None } => {
                let mut text = "Memory operation failed with the following invalid states: \"".to_owned();
                text.append(render_states(*state, *protect, *page_type, *mask).as_str());
                text.append("\"");
                text
            },
            MemOpError::PatternNotFound => "Pattern not found".to_owned(),
            MemOpError::WinAPI { code, message, context: Some(context) } => {
                let mut text = "Windows API call with context \"".to_owned();
                text.append(context.as_str());
                text.append("\" failed with: \"Windows Error: ");
                text.append(to_hex8(*code as u32).as_str());
                text.append(" - ");
                text.append(message.as_str());
                text.append("\"");
                text
            },
            MemOpError::WinAPI { code, message, context: None } => {
                let mut text = "Windows API call failed with: \"Windows Error: ".to_owned();
                text.append(to_hex8(*code as u32).as_str());
                text.append(" - ");
                text.append(message.as_str());
                text.append("\"");
                text
            },
            MemOpError::Other { chain } => join_chain(chain),
        }
    }
}

/// What a call that needs the handle gets: the guard where the handle was
/// had, else the error of a handle that could not be had within `timeout`.
pub fn with_handle<G>(guard: Option<G>, timeout: Option<u64>) -> (result: MemOpResult<G>)
    ensures
        match guard {
            Some(g) => result == Ok::<G, MemOpError>(g),
            None => result is Err && result->Err_0@ == (ErrorModel::TimeoutReached {
                timeout,
                context: None,
            }),
        },
{
    match guard {
        Some(g) => Ok(g),
        None => Err(MemOpError::handle_timeout(timeout)),
    }
}

/// The error of a missing value that was to be worked on.
pub open spec fn option_is_none() -> ErrorModel {
    ErrorModel::Other { chain: seq!["Option is None"@] }
}

/// Context and chaining for the results of memory operations and for
/// values that may be missing. A missing value counts as a failure.
pub trait MemOpResultExt<T>: Sized {
    /// Puts `context` in front of a failure; a success stays as it is.
    fn context(self, context: &str) -> MemOpResult<T>;

    /// Puts the context that `f` makes in front of a failure; a success
    /// stays as it is and `f` is not called.
    fn with_context<F: FnOnce() -> String>(self, f: F) -> MemOpResult<T>
        requires
            f.requires(()),
    ;

    /// Applies `op` to the value of a success; a failure stays as it is.
    fn map_ok<U, F: FnOnce(T) -> U>(self, op: F) -> MemOpResult<U>
        requires
            forall|value: T| op.requires((value,)),
    ;
}

impl<T> MemOpResultExt<T> for MemOpResult<T> {
    fn context(self, context: &str) -> (result: MemOpResult<T>)
        ensures
            match self {
                Ok(value) => result == Ok::<T, MemOpError>(value),
                Err(error) => result is Err && result->Err_0@ == error@.with_context(context@),
            },
    {
        match self {
            Ok(value) => Ok(value),
            Err(error) => Err(error.add_context(context)),
        }
    }

    fn with_context<F: FnOnce() -> String>(self, f: F) -> (result: MemOpResult<T>)
        ensures
            match self {
                Ok(value) => result == Ok::<T, MemOpError>(value),
                Err(error) => result is Err && exists|context: String|
                    f.ensures((), context) && result->Err_0@ == error@.with_context(context@),
            },
    {
        match self {
            Ok(value) => Ok(value),
            Err(error) => {
                let context = f();
                Err(error.add_context(context.as_str()))
            },
        }
    }

    fn map_ok<U, F: FnOnce(T) -> U>(self, op: F) -> (result: MemOpResult<U>)
        ensures
            match self {
                Ok(value) => result is Ok && op.ensures((value,), result->Ok_0),
                Err(error) => result == Err::<U, MemOpError>(error),
            },
    {
        match self {
            Ok(value) => Ok(op(value)),
            Err(error) => Err(error),
        }
    }
}

impl<T> MemOpResultExt<T> for Option<T> {
    fn context(self, context: &str) -> (result: MemOpResult<T>)
        ensures
            match self {
                Some(value) => result == Ok::<T, MemOpError>(value),
                None => result is Err && result->Err_0@ == (ErrorModel::Other {
                    chain: seq![context@],
                }),
            },
    {
        match self {
            Some(value) => Ok(value),
            None => Err(MemOpError::new(context)),
        }
    }

    fn with_context<F: FnOnce() -> String>(self, f: F) -> (result: MemOpResult<T>)
        ensures
            match self {
                Some(value) => result == Ok::<T, MemOpError>(value),
                None => result is Err && exists|context: String|
                    f.ensures((), context) && result->Err_0@ == (ErrorModel::Other {
                        chain: seq![context@],
                    }),
            },
    {
        match self {
            Some(value) => Ok(value),
            None => {
                let context = f();
                Err(MemOpError::new(context.as_str()))
            },
        }
    }

    fn map_ok<U, F: FnOnce(T) -> U>(self, op: F) -> (result: MemOpResult<U>)
        ensures
            match self {
                Some(value) => result is Ok && op.ensures((value,), result->Ok_0),
                None => result is Err && result->Err_0@ == option_is_none(),
            },
    {
        match self {
            Some(value) => Ok(op(value)),
            None => Err(MemOpError::new("Option is None")),
        }
    }
}

/// Context never changes what kind of error there is.
pub proof fn lemma_context_keeps_variant(error: ErrorModel, context: Seq<char>)
    ensures
        error is TimeoutReached <==> error.with_context(context) is TimeoutReached,
        error is MemoryStateInvalid <==> error.with_context(context) is MemoryStateInvalid,
        error is PatternNotFound <==> error.with_context(context) is PatternNotFound,
        error is WinAPI <==> error.with_context(context) is WinAPI,
        error is Other <==> error.with_context(context) is Other,
        error matches ErrorModel::Other { chain } ==> error.with_context(context)->chain
            == seq![context] + chain,
{
}

} // verus!
