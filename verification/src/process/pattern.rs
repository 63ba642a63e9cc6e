//! Byte signatures with wildcards: matching, scanning and the bytes that
//! undo a patch.

use crate::error::MemOpResult;
use crate::memory::Byte;
use vstd::prelude::*;

verus! {

/// Whether `byte` is accepted by the signature position `pattern`.
pub open spec fn byte_matches_spec(byte: u8, pattern: Byte) -> bool {
    match pattern {
        None => true,
        Some(b) => b == byte,
    }
}

/// Whether `pattern` fits into `haystack` at `offset` and every position of it
/// that is not a wildcard equals the byte it lies on.
pub open spec fn matches_at(haystack: Seq<u8>, pattern: Seq<Byte>, offset: int) -> bool {
    &&& 0 <= offset
    &&& offset + pattern.len() <= haystack.len()
    &&& forall|i: int|
        0 <= i < pattern.len() ==> byte_matches_spec(haystack[offset + i], #[trigger] pattern[i])
}

/// The bytes that restore a patch site: the captured byte under each wildcard,
/// the signature's own byte elsewhere. Positions beyond the shorter of the two
/// sequences are left out.
pub open spec fn unhook_bytes(pattern: Seq<Byte>, found: Seq<u8>) -> Seq<u8> {
    Seq::new(
        if pattern.len() <= found.len() { pattern.len() } else { found.len() },
        |i: int|
            match pattern[i] {
                None => found[i],
                Some(b) => b,
            },
    )
}

/// Determines whether a byte matches one position of a signature.
pub fn byte_matches(byte: &u8, pattern: Byte) -> (accepted: bool)
    ensures
        accepted == byte_matches_spec(*byte, pattern),
{
    match pattern {
        None => true,
        Some(b) => b == *byte,
    }
}

/// Copies `bytes[start..end]` into a vector of its own.
fn copy_range(bytes: &Vec<u8>, start: usize, end: usize) -> (out: Vec<u8>)
    requires
        start <= end <= bytes.len(),
    ensures
        out@ == bytes@.subrange(start as int, end as int),
{
    let mut out: Vec<u8> = Vec::new();
    let mut k: usize = start;
    while k < end
        invariant
            start <= k <= end <= bytes.len(),
            out@ == bytes@.subrange(start as int, k as int),
        decreases end - k,
    {
        out.push(bytes[k]);
        k += 1;
    }
    out
}

/// Tests one offset of the haystack against the whole signature.
fn matches_here(bytes: &Vec<u8>, pattern: &Vec<Byte>, offset: usize) -> (found: bool)
    requires
        offset + pattern.len() <= bytes.len(),
    ensures
        found == matches_at(bytes@, pattern@, offset as int),
{
    let mut j: usize = 0;
    while j < pattern.len()
        invariant
            j <= pattern.len(),
            offset + pattern.len() <= bytes.len(),
            forall|i: int|
                0 <= i < j ==> byte_matches_spec(bytes@[offset + i], #[trigger] pattern@[i]),
        decreases pattern.len() - j,
    {
        if !byte_matches(&bytes[offset + j], pattern[j]) {
            return false;
        }
        j += 1;
    }
    true
}

/// Finds every place of `bytes` at which `pattern` matches, in ascending
/// order, each with the bytes that lie there.
///
/// The captured bytes are the concrete bytes of the haystack, also under the
/// wildcards: they are what an uninstall writes back.
pub fn find_pattern_in_bytes(bytes: Vec<u8>, pattern: Vec<Byte>) -> (result: MemOpResult<
    Vec<(usize, Vec<u8>)>,
>)
    ensures
        result is Ok,
        is_scan_of(result->Ok_0@, bytes@, pattern@),
{
    let mut matches: Vec<(usize, Vec<u8>)> = Vec::new();
    if pattern.len() > bytes.len() {
        return Ok(matches);
    }
    let last: usize = bytes.len() - pattern.len();
    let mut i: usize = 0;
    loop
        invariant_except_break
            i <= last,
            is_scan_up_to(matches@, bytes@, pattern@, i as int),
        invariant
            last == bytes.len() - pattern.len(),
        ensures
            is_scan_up_to(matches@, bytes@, pattern@, last as int + 1),
        decreases last - i,
    {
        let ghost before = matches@;
        if matches_here(&bytes, &pattern, i) {
            let captured = copy_range(&bytes, i, i + pattern.len());
            matches.push((i, captured));
            proof {
                assert forall|offset: int|
                    0 <= offset < i + 1 && #[trigger] matches_at(
                        bytes@,
                        pattern@,
                        offset,
                    ) implies exists|k: int|
                    0 <= k < matches@.len() && (#[trigger] matches@[k]).0 == offset by {
                    if offset < i {
                        let k = choose|k: int|
                            0 <= k < before.len() && (#[trigger] before[k]).0 == offset;
                        assert(matches@[k] == before[k]);
                    } else {
                        assert(matches@[before.len() as int].0 == offset);
                    }
                }
            }
        } else {
            proof {
                assert forall|offset: int|
                    0 <= offset < i + 1 && #[trigger] matches_at(
                        bytes@,
                        pattern@,
                        offset,
                    ) implies exists|k: int|
                    0 <= k < matches@.len() && (#[trigger] matches@[k]).0 == offset by {
                    assert(offset < i);
                }
            }
        }
        if i == last {
            break ;
        }
        i += 1;
    }
    Ok(matches)
}

/// `found` lists exactly the matches of `pattern` in `haystack` that begin
/// before `bound`, in ascending order and with their captured bytes.
pub open spec fn is_scan_up_to(
    found: Seq<(usize, Vec<u8>)>,
    haystack: Seq<u8>,
    pattern: Seq<Byte>,
    bound: int,
) -> bool {
    &&& forall|k: int|
        0 <= k < found.len() ==> {
            &&& (#[trigger] found[k]).0 < bound
            &&& matches_at(haystack, pattern, found[k].0 as int)
            &&& found[k].1@ == haystack.subrange(
                found[k].0 as int,
                found[k].0 as int + pattern.len(),
            )
        }
    &&& forall|k: int, l: int| 0 <= k < l < found.len() ==> (#[trigger] found[k]).0 < (#[trigger] found[l]).0
    &&& forall|offset: int|
        0 <= offset < bound && #[trigger] matches_at(haystack, pattern, offset) ==> exists|k: int|
            0 <= k < found.len() && (#[trigger] found[k]).0 == offset
}

/// `found` lists exactly the matches of `pattern` in `haystack`, in ascending
/// order and with their captured bytes.
pub open spec fn is_scan_of(found: Seq<(usize, Vec<u8>)>, haystack: Seq<u8>, pattern: Seq<Byte>) -> bool {
    is_scan_up_to(found, haystack, pattern, haystack.len() as int + 1)
}

/// Whether `c` separates the tokens of a signature: the characters that
/// Unicode calls white space.
pub open spec fn is_space(c: char) -> bool {
    let v = c as u32;
    ||| 0x09 <= v <= 0x0D
    ||| v == 0x20
    ||| v == 0x85
    ||| v == 0xA0
    ||| v == 0x1680
    ||| 0x2000 <= v <= 0x200A
    ||| v == 0x2028
    ||| v == 0x2029
    ||| v == 0x202F
    ||| v == 0x205F
    ||| v == 0x3000
}

/// The value of a hexadecimal digit, in either case; `None` for any other
/// character.
pub open spec fn hex_value(c: char) -> Option<u8> {
    let v = c as u32;
    if 0x30 <= v <= 0x39 {
        Some((v - 0x30) as u8)
    } else if 0x41 <= v <= 0x46 {
        Some((v - 0x41 + 10) as u8)
    } else if 0x61 <= v <= 0x66 {
        Some((v - 0x61 + 10) as u8)
    } else {
        None
    }
}

/// What one token of a signature stands for: `?` and `??` are wildcards, two
/// hexadecimal digits are the byte they spell, and any other token is the
/// byte zero.
pub open spec fn token_byte(token: Seq<char>) -> Byte {
    if token =~= seq!['?'] || token =~= seq!['?', '?'] {
        None
    } else if token.len() == 2 && hex_value(token[0]) is Some && hex_value(token[1]) is Some {
        Some((hex_value(token[0])->Some_0 * 16 + hex_value(token[1])->Some_0) as u8)
    } else {
        Some(0u8)
    }
}

/// The tokens of a text: its maximal runs of characters that are no white
/// space, from left to right.
pub open spec fn tokens(text: Seq<char>) -> Seq<Seq<char>>
    decreases text.len(),
{
    if text.len() == 0 {
        Seq::empty()
    } else {
        let before = tokens(text.drop_last());
        let c = text.last();
        if is_space(c) {
            before
        } else if text.len() >= 2 && !is_space(text[text.len() - 2]) {
            before.drop_last().push(before.last().push(c))
        } else {
            before.push(seq![c])
        }
    }
}

/// The signature that a text spells: one position for each of its tokens.
pub open spec fn parse_pattern(text: Seq<char>) -> Seq<Byte> {
    tokens(text).map_values(|token: Seq<char>| token_byte(token))
}

fn is_whitespace(c: char) -> (space: bool)
    ensures
        space == is_space(c),
{
    let v: u32 = c as u32;
    (0x09 <= v && v <= 0x0D) || v == 0x20 || v == 0x85 || v == 0xA0 || v == 0x1680 || (0x2000 <= v
        && v <= 0x200A) || v == 0x2028 || v == 0x2029 || v == 0x202F || v == 0x205F || v == 0x3000
}

fn hex_digit(c: char) -> (digit: Option<u8>)
    ensures
        digit == hex_value(c),
        digit matches Some(d) ==> d < 16,
{
    let v: u32 = c as u32;
    if 0x30 <= v && v <= 0x39 {
        Some((v - 0x30) as u8)
    } else if 0x41 <= v && v <= 0x46 {
        Some((v - 0x41 + 10) as u8)
    } else if 0x61 <= v && v <= 0x66 {
        Some((v - 0x61 + 10) as u8)
    } else {
        None
    }
}

/// What the scanner keeps of the token it is in: its length, counted no
/// further than three, and its first two characters.
spec fn summarises(token: Seq<char>, count: usize, c0: char, c1: char) -> bool {
    &&& count == if token.len() <= 2 { token.len() } else { 3 }
    &&& token.len() >= 1 ==> c0 == token[0]
    &&& token.len() >= 2 ==> c1 == token[1]
}

fn byte_of_token(count: usize, c0: char, c1: char, Ghost(token): Ghost<Seq<char>>) -> (byte: Byte)
    requires
        count >= 1,
        summarises(token, count, c0, c1),
    ensures
        byte == token_byte(token),
{
    if count == 1 {
        if c0 == '?' {
            None
        } else {
            Some(0)
        }
    } else if count == 2 {
        if c0 == '?' && c1 == '?' {
            None
        } else {
            match (hex_digit(c0), hex_digit(c1)) {
                (Some(high), Some(low)) => Some(high * 16 + low),
                _ => Some(0),
            }
        }
    } else {
        Some(0)
    }
}

/// Turns the text of a signature into its positions.
///
/// The text is split at white space. A token `?` or `??` is a wildcard, a
/// token of two hexadecimal digits is that byte, and any other token is the
/// byte zero.
pub fn prepare_pattern(pattern: &str) -> (bytes: Vec<Byte>)
    ensures
        bytes@ == parse_pattern(pattern@),
{
    let mut bytes: Vec<Byte> = Vec::new();
    let mut count: usize = 0;
    let mut c0: char = ' ';
    let mut c1: char = ' ';
    let ghost mut done: Seq<Seq<char>> = Seq::empty();
    let ghost mut current: Seq<char> = Seq::empty();
    for c in it: pattern.chars()
        invariant
            it.seq() == pattern@,
            tokens(pattern@.take(it.index() as int)) == if current.len() > 0 {
                done.push(current)
            } else {
                done
            },
            current.len() > 0 ==> it.index() > 0 && !is_space(pattern@[it.index() - 1]),
            current.len() == 0 && it.index() > 0 ==> is_space(pattern@[it.index() - 1]),
            bytes@ == done.map_values(|token: Seq<char>| token_byte(token)),
            summarises(current, count, c0, c1),
    {
        let ghost index = it.index() as int;
        let ghost prefix = pattern@.take(index + 1);
        proof {
            assert(prefix.drop_last() =~= pattern@.take(index));
            assert(prefix.last() == c);
        }
        if is_whitespace(c) {
            proof {
                assert(tokens(prefix) == tokens(pattern@.take(index)));
            }
            if count > 0 {
                bytes.push(byte_of_token(count, c0, c1, Ghost(current)));
                proof {
                    assert(done.push(current).map_values(|token: Seq<char>| token_byte(token))
                        =~= done.map_values(|token: Seq<char>| token_byte(token)).push(
                        token_byte(current),
                    ));
                    done = done.push(current);
                    current = Seq::empty();
                }
                count = 0;
            }
        } else {
            if count == 0 {
                c0 = c;
            } else if count == 1 {
                c1 = c;
            }
            if count < 3 {
                count += 1;
            }
            proof {
                if current.len() > 0 {
                    assert(prefix[prefix.len() - 2] == pattern@[index - 1]);
                    assert(done.push(current).drop_last() =~= done);
                    assert(tokens(prefix) == done.push(current.push(c)));
                } else {
                    assert(index > 0 ==> prefix[prefix.len() - 2] == pattern@[index - 1]);
                    assert(Seq::<char>::empty().push(c) =~= seq![c]);
                    assert(current =~= Seq::<char>::empty());
                    assert(tokens(prefix) == done.push(seq![c]));
                }
                current = current.push(c);
            }
        }
    }
    proof {
        assert(pattern@.take(pattern@.len() as int) =~= pattern@);
    }
    if count > 0 {
        bytes.push(byte_of_token(count, c0, c1, Ghost(current)));
        proof {
            assert(done.push(current).map_values(|token: Seq<char>| token_byte(token))
                =~= done.map_values(|token: Seq<char>| token_byte(token)).push(
                token_byte(current),
            ));
        }
    }
    bytes
}

/// Builds the bytes that an uninstall writes over the patch site: the
/// captured byte wherever the signature has a wildcard, the signature's own
/// byte elsewhere.
pub fn create_unhook_bytes(pattern: &[Byte], found_bytes: &[u8]) -> (restored: Vec<u8>)
    ensures
        restored@ == unhook_bytes(pattern@, found_bytes@),
        pattern@.len() == found_bytes@.len() ==> restored@.len() == pattern@.len(),
        forall|i: int|
            0 <= i < restored@.len() ==> restored@[i] == match #[trigger] pattern@[i] {
                None => found_bytes@[i],
                Some(b) => b,
            },
{
    let length: usize = if pattern.len() <= found_bytes.len() {
        pattern.len()
    } else {
        found_bytes.len()
    };
    let mut restored: Vec<u8> = Vec::new();
    let mut i: usize = 0;
    while i < length
        invariant
            i <= length,
            length <= pattern@.len(),
            length <= found_bytes@.len(),
            restored@ == unhook_bytes(pattern@, found_bytes@).take(i as int),
            unhook_bytes(pattern@, found_bytes@).len() == length,
        decreases length - i,
    {
        let byte: u8 = match pattern[i] {
            None => found_bytes[i],
            Some(b) => b,
        };
        restored.push(byte);
        proof {
            assert(restored@ =~= unhook_bytes(pattern@, found_bytes@).take(i + 1));
        }
        i += 1;
    }
    proof {
        assert(restored@ =~= unhook_bytes(pattern@, found_bytes@));
    }
    restored
}

/// Scans bytes that were read from the victim for the signature that
/// `pattern` spells, and lists every match with the bytes captured there.
pub fn pattern_scan(bytes: Vec<u8>, pattern: &str) -> (result: MemOpResult<Vec<(usize, Vec<u8>)>>)
    ensures
        result is Ok,
        is_scan_of(result->Ok_0@, bytes@, parse_pattern(pattern@)),
{
    let pattern_bytes = prepare_pattern(pattern);
    find_pattern_in_bytes(bytes, pattern_bytes)
}

/// Pattern round trip, one position at a time: of a signature and captured
/// bytes of the same length, the restored bytes have that length, hold the
/// captured byte under every wildcard and the signature's byte elsewhere.
pub proof fn lemma_unhook_bytes_pointwise(pattern: Seq<Byte>, captured: Seq<u8>)
    requires
        pattern.len() == captured.len(),
    ensures
        unhook_bytes(pattern, captured).len() == pattern.len(),
        forall|i: int|
            0 <= i < pattern.len() ==> #[trigger] unhook_bytes(pattern, captured)[i] == (
            match pattern[i] {
                None => captured[i],
                Some(b) => b,
            }),
{
}

/// The bytes captured at a match are their own restoration: writing
/// `unhook_bytes` of them puts back exactly what was there.
pub proof fn lemma_unhook_bytes_of_match(haystack: Seq<u8>, pattern: Seq<Byte>, offset: int)
    requires
        matches_at(haystack, pattern, offset),
    ensures
        unhook_bytes(pattern, haystack.subrange(offset, offset + pattern.len()))
            == haystack.subrange(offset, offset + pattern.len()),
{
    let captured = haystack.subrange(offset, offset + pattern.len());
    assert forall|i: int| 0 <= i < pattern.len() implies unhook_bytes(pattern, captured)[i]
        == captured[i] by {
        assert(byte_matches_spec(haystack[offset + i], pattern[i]));
    }
    assert(unhook_bytes(pattern, captured) =~= captured);
}

/// Scanner soundness: a scan lists only offsets at which every position of
/// the signature is a wildcard or equals the byte of the haystack under it.
pub proof fn lemma_scan_sound(
    found: Seq<(usize, Vec<u8>)>,
    haystack: Seq<u8>,
    pattern: Seq<Byte>,
    k: int,
    i: int,
)
    requires
        is_scan_of(found, haystack, pattern),
        0 <= k < found.len(),
        0 <= i < pattern.len(),
    ensures
        found[k].0 + pattern.len() <= haystack.len(),
        pattern[i] is None || pattern[i] == Some(haystack[found[k].0 + i]),
{
    assert(matches_at(haystack, pattern, found[k].0 as int));
    assert(byte_matches_spec(haystack[found[k].0 + i], pattern[i]));
}

/// Scanner completeness: a scan lists every offset at which the signature
/// matches, and lists the offsets in ascending order.
pub proof fn lemma_scan_complete(
    found: Seq<(usize, Vec<u8>)>,
    haystack: Seq<u8>,
    pattern: Seq<Byte>,
)
    requires
        is_scan_of(found, haystack, pattern),
    ensures
        forall|offset: int| #[trigger]
            matches_at(haystack, pattern, offset) ==> exists|k: int|
                0 <= k < found.len() && (#[trigger] found[k]).0 == offset,
        forall|k: int, l: int|
            0 <= k < l < found.len() ==> (#[trigger] found[k]).0 < (#[trigger] found[l]).0,
{
}

/// A scan is determined by the haystack and the signature: two scans of the
/// same input list the same offsets and the same captured bytes.
pub proof fn lemma_scan_unique(
    first: Seq<(usize, Vec<u8>)>,
    second: Seq<(usize, Vec<u8>)>,
    haystack: Seq<u8>,
    pattern: Seq<Byte>,
)
    requires
        is_scan_of(first, haystack, pattern),
        is_scan_of(second, haystack, pattern),
    ensures
        first.len() == second.len(),
        forall|k: int|
            0 <= k < first.len() ==> (#[trigger] first[k]).0 == second[k].0 && first[k].1@
                == second[k].1@,
{
    lemma_scan_unique_up_to(first, second, haystack, pattern, haystack.len() as int + 1);
}

proof fn lemma_scan_unique_up_to(
    first: Seq<(usize, Vec<u8>)>,
    second: Seq<(usize, Vec<u8>)>,
    haystack: Seq<u8>,
    pattern: Seq<Byte>,
    bound: int,
)
    requires
        0 <= bound,
        is_scan_up_to(first, haystack, pattern, bound),
        is_scan_up_to(second, haystack, pattern, bound),
    ensures
        first.len() == second.len(),
        forall|k: int|
            0 <= k < first.len() ==> (#[trigger] first[k]).0 == second[k].0 && first[k].1@
                == second[k].1@,
    decreases bound,
{
    if bound == 0 {
        if first.len() > 0 {
            assert(first[0].0 < bound);
        }
        if second.len() > 0 {
            assert(second[0].0 < bound);
        }
    } else if matches_at(haystack, pattern, bound - 1) {
        lemma_scan_ends_with(first, haystack, pattern, bound);
        lemma_scan_ends_with(second, haystack, pattern, bound);
        lemma_scan_unique_up_to(
            first.drop_last(),
            second.drop_last(),
            haystack,
            pattern,
            bound - 1,
        );
        assert forall|k: int| 0 <= k < first.len() implies (#[trigger] first[k]).0 == second[k].0
            && first[k].1@ == second[k].1@ by {
            if k < first.len() - 1 {
                assert(first.drop_last()[k] == first[k]);
                assert(second.drop_last()[k] == second[k]);
            }
        }
    } else {
        lemma_scan_without(first, haystack, pattern, bound);
        lemma_scan_without(second, haystack, pattern, bound);
        lemma_scan_unique_up_to(first, second, haystack, pattern, bound - 1);
    }
}

/// Where the signature matches just below `bound`, that match is the last
/// entry of a scan up to `bound`, and the entries before it are a scan of
/// what lies below.
proof fn lemma_scan_ends_with(
    found: Seq<(usize, Vec<u8>)>,
    haystack: Seq<u8>,
    pattern: Seq<Byte>,
    bound: int,
)
    requires
        0 < bound,
        matches_at(haystack, pattern, bound - 1),
        is_scan_up_to(found, haystack, pattern, bound),
    ensures
        found.len() > 0,
        found.last().0 == bound - 1,
        is_scan_up_to(found.drop_last(), haystack, pattern, bound - 1),
{
    let at = choose|k: int| 0 <= k < found.len() && (#[trigger] found[k]).0 == bound - 1;
    if at < found.len() - 1 {
        assert(found[at].0 < found[found.len() - 1].0);
        assert(found[found.len() - 1].0 < bound);
    }
    let shorter = found.drop_last();
    assert forall|k: int| 0 <= k < shorter.len() implies (#[trigger] shorter[k]).0 < bound - 1 by {
        assert(shorter[k] == found[k]);
        assert(found[k].0 < found[found.len() - 1].0);
    }
    assert forall|k: int| 0 <= k < shorter.len() implies matches_at(
        haystack,
        pattern,
        (#[trigger] shorter[k]).0 as int,
    ) && shorter[k].1@ == haystack.subrange(
        shorter[k].0 as int,
        shorter[k].0 as int + pattern.len(),
    ) by {
        assert(shorter[k] == found[k]);
    }
    assert forall|k: int, l: int| 0 <= k < l < shorter.len() implies (#[trigger] shorter[k]).0 < (
    #[trigger] shorter[l]).0 by {
        assert(shorter[k] == found[k]);
        assert(shorter[l] == found[l]);
    }
    assert forall|offset: int|
        0 <= offset < bound - 1 && #[trigger] matches_at(
            haystack,
            pattern,
            offset,
        ) implies exists|k: int| 0 <= k < shorter.len() && (#[trigger] shorter[k]).0 == offset by {
        let k = choose|k: int| 0 <= k < found.len() && (#[trigger] found[k]).0 == offset;
        assert(shorter[k] == found[k]);
    }
}

/// Where the signature does not match just below `bound`, a scan up to
/// `bound` is a scan of what lies below.
proof fn lemma_scan_without(
    found: Seq<(usize, Vec<u8>)>,
    haystack: Seq<u8>,
    pattern: Seq<Byte>,
    bound: int,
)
    requires
        0 < bound,
        !matches_at(haystack, pattern, bound - 1),
        is_scan_up_to(found, haystack, pattern, bound),
    ensures
        is_scan_up_to(found, haystack, pattern, bound - 1),
{
    assert forall|k: int| 0 <= k < found.len() implies (#[trigger] found[k]).0 < bound - 1 by {
        assert(matches_at(haystack, pattern, found[k].0 as int));
    }
}

/// The least offset at which the signature matches, where it matches at
/// all.
pub open spec fn first_match(haystack: Seq<u8>, pattern: Seq<Byte>) -> Option<int> {
    if exists|offset: int| matches_at(haystack, pattern, offset) {
        Some(
            choose|offset: int|
                matches_at(haystack, pattern, offset) && forall|other: int|
                    matches_at(haystack, pattern, other) ==> offset <= other,
        )
    } else {
        None
    }
}

/// The first match is a match, and no match lies before it.
pub proof fn lemma_first_match_matches(haystack: Seq<u8>, pattern: Seq<Byte>)
    ensures
        first_match(haystack, pattern) matches Some(offset) ==> matches_at(
            haystack,
            pattern,
            offset,
        ) && forall|other: int| matches_at(haystack, pattern, other) ==> offset <= other,
        first_match(haystack, pattern) is None ==> forall|other: int|
            !matches_at(haystack, pattern, other),
{
    if exists|offset: int| matches_at(haystack, pattern, offset) {
        let witness = choose|offset: int| matches_at(haystack, pattern, offset);
        lemma_least_match(haystack, pattern, witness);
    }
}

/// Below a match there is a least one.
proof fn lemma_least_match(haystack: Seq<u8>, pattern: Seq<Byte>, bound: int)
    requires
        matches_at(haystack, pattern, bound),
    ensures
        exists|offset: int|
            matches_at(haystack, pattern, offset) && forall|other: int|
                matches_at(haystack, pattern, other) ==> offset <= other,
    decreases bound,
{
    if exists|lower: int| lower < bound && matches_at(haystack, pattern, lower) {
        let lower = choose|lower: int| lower < bound && matches_at(haystack, pattern, lower);
        lemma_least_match(haystack, pattern, lower);
    } else {
        assert(matches_at(haystack, pattern, bound) && forall|other: int|
            matches_at(haystack, pattern, other) ==> bound <= other);
    }
}

/// An offset at which the signature matches and before which it does not is
/// the first match.
pub proof fn lemma_first_match_is(haystack: Seq<u8>, pattern: Seq<Byte>, offset: int)
    requires
        matches_at(haystack, pattern, offset),
        forall|other: int| 0 <= other < offset ==> !matches_at(haystack, pattern, other),
    ensures
        first_match(haystack, pattern) == Some(offset),
{
    let chosen = choose|o: int|
        matches_at(haystack, pattern, o) && forall|other: int|
            matches_at(haystack, pattern, other) ==> o <= other;
    assert(matches_at(haystack, pattern, offset) && forall|other: int|
        matches_at(haystack, pattern, other) ==> offset <= other);
    assert(chosen <= offset);
    assert(offset <= chosen);
}

/// The first entry of a scan is the first match; an empty scan means that
/// the signature matches nowhere.
pub proof fn lemma_first_of_scan(
    found: Seq<(usize, Vec<u8>)>,
    haystack: Seq<u8>,
    pattern: Seq<Byte>,
)
    requires
        is_scan_of(found, haystack, pattern),
    ensures
        found.len() == 0 ==> first_match(haystack, pattern) is None,
        found.len() > 0 ==> first_match(haystack, pattern) == Some(found[0].0 as int),
{
    if found.len() == 0 {
        if exists|offset: int| matches_at(haystack, pattern, offset) {
            let offset = choose|offset: int| matches_at(haystack, pattern, offset);
            let k = choose|k: int| 0 <= k < found.len() && (#[trigger] found[k]).0 == offset;
        }
    } else {
        let least = found[0].0 as int;
        assert(matches_at(haystack, pattern, least));
        assert forall|other: int| 0 <= other < least implies !matches_at(
            haystack,
            pattern,
            other,
        ) by {
            if matches_at(haystack, pattern, other) {
                let k = choose|k: int| 0 <= k < found.len() && (#[trigger] found[k]).0 == other;
                if k > 0 {
                    assert(found[0].0 < found[k].0);
                }
            }
        }
        lemma_first_match_is(haystack, pattern, least);
    }
}

/// Finds the first place of `bytes` at which `pattern` matches, with the
/// bytes that lie there.
pub fn find_first_match(bytes: &Vec<u8>, pattern: &Vec<Byte>) -> (found: Option<(usize, Vec<u8>)>)
    ensures
        match first_match(bytes@, pattern@) {
            None => found is None,
            Some(offset) => found matches Some(entry) && entry.0 == offset && entry.1@
                == bytes@.subrange(offset, offset + pattern@.len()),
        },
{
    if pattern.len() > bytes.len() {
        return None;
    }
    let last: usize = bytes.len() - pattern.len();
    let mut i: usize = 0;
    loop
        invariant_except_break
            i <= last,
            forall|other: int| 0 <= other < i ==> !matches_at(bytes@, pattern@, other),
        invariant
            last == bytes.len() - pattern.len(),
        ensures
            first_match(bytes@, pattern@) is None,
        decreases last - i,
    {
        if matches_here(bytes, pattern, i) {
            let captured = copy_range(bytes, i, i + pattern.len());
            proof {
                lemma_first_match_is(bytes@, pattern@, i as int);
            }
            return Some((i, captured));
        }
        if i == last {
            break ;
        }
        i += 1;
    }
    None
}

} // verus!
