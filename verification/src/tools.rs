//! Ready-made combinations of the scanner's parts.

use crate::error::MemOpResult;
use crate::process::pattern::{is_scan_of, parse_pattern};
use vstd::prelude::*;

verus! {

/// Scans bytes that were read from the victim for the signature that
/// `pattern` spells, and lists every match with the bytes captured there.
pub fn pattern_scan(bytes: Vec<u8>, pattern: &str) -> (result: MemOpResult<Vec<(usize, Vec<u8>)>>)
    ensures
        result is Ok,
        is_scan_of(result->Ok_0@, bytes@, parse_pattern(pattern@)),
{
    crate::process::pattern::pattern_scan(bytes, pattern)
}

} // verus!
