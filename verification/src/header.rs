//! The header extractor: the leading bytes of a source unit up to its first
//! top-level declaration, decoded as UTF-8 and trimmed of surrounding
//! whitespace.

use vstd::prelude::*;
use vstd::slice::slice_subrange;
use vstd::string::StrSliceExecFns;
use vstd::utf8::{decode_utf8, valid_utf8};

verus! {

/// The failure of one unit's check: the bytes before its first declaration
/// are not valid text, which signals an inconsistency between the unit's
/// recorded offsets and its contents rather than a finding about the file.
#[derive(Clone, Copy, Debug, PartialEq, Eq)]
pub enum CheckError {
    InvalidEncoding,
}

/// The whitespace characters stripped from both ends of a header:
/// space, tab, line feed, form feed and carriage return.
pub open spec fn is_space_char(c: char) -> bool {
    c == ' ' || c == '\t' || c == '\n' || c == '\x0c' || c == '\r'
}

/// The sequence with its leading whitespace removed.
pub open spec fn trim_start(s: Seq<char>) -> Seq<char>
    decreases s.len(),
{
    if s.len() > 0 && is_space_char(s.first()) {
        trim_start(s.drop_first())
    } else {
        s
    }
}

/// The sequence with its trailing whitespace removed.
pub open spec fn trim_end(s: Seq<char>) -> Seq<char>
    decreases s.len(),
{
    if s.len() > 0 && is_space_char(s.last()) {
        trim_end(s.drop_last())
    } else {
        s
    }
}

/// The sequence with whitespace removed from both ends.
pub open spec fn trimmed(s: Seq<char>) -> Seq<char> {
    trim_end(trim_start(s))
}

/// Removing leading whitespace keeps the subrange that starts at the first
/// non-whitespace character.
proof fn lemma_trim_start_subrange(s: Seq<char>, lo: int)
    requires
        0 <= lo <= s.len(),
        forall|j: int| 0 <= j < lo ==> is_space_char(s[j]),
        lo == s.len() || !is_space_char(s[lo]),
    ensures
        trim_start(s) == s.subrange(lo, s.len() as int),
    decreases lo,
{
    if lo == 0 {
        assert(s.subrange(0, s.len() as int) =~= s);
    } else {
        let t = s.drop_first();
        lemma_trim_start_subrange(t, lo - 1);
        assert(t.subrange(lo - 1, t.len() as int) =~= s.subrange(lo, s.len() as int));
    }
}

/// Removing trailing whitespace keeps the subrange that ends just after the
/// last non-whitespace character.
proof fn lemma_trim_end_subrange(s: Seq<char>, hi: int)
    requires
        0 <= hi <= s.len(),
        forall|j: int| hi <= j < s.len() ==> is_space_char(s[j]),
        hi == 0 || !is_space_char(s[hi - 1]),
    ensures
        trim_end(s) == s.subrange(0, hi),
    decreases s.len() - hi,
{
    if hi == s.len() {
        assert(s.subrange(0, s.len() as int) =~= s);
    } else {
        let t = s.drop_last();
        lemma_trim_end_subrange(t, hi);
        assert(t.subrange(0, hi) =~= s.subrange(0, hi));
    }
}

/// A subrange whose complement is all whitespace, with non-whitespace
/// characters at both of its ends, is the trimmed sequence.
proof fn lemma_trimmed_subrange(s: Seq<char>, lo: int, hi: int)
    requires
        0 <= lo <= hi <= s.len(),
        forall|j: int| 0 <= j < lo ==> is_space_char(s[j]),
        forall|j: int| hi <= j < s.len() ==> is_space_char(s[j]),
        lo == s.len() || !is_space_char(s[lo]),
        hi == lo || !is_space_char(s[hi - 1]),
    ensures
        trimmed(s) == s.subrange(lo, hi),
{
    lemma_trim_start_subrange(s, lo);
    let t = s.subrange(lo, s.len() as int);
    lemma_trim_end_subrange(t, hi - lo);
    assert(t.subrange(0, hi - lo) =~= s.subrange(lo, hi));
}

/// Whether a character is whitespace for the purposes of header trimming.
fn is_space(c: char) -> (b: bool)
    ensures
        b == is_space_char(c),
{
    c == ' ' || c == '\t' || c == '\n' || c == '\x0c' || c == '\r'
}

/// The slice of a string with whitespace removed from both ends.
pub fn trim_text<'a>(s: &'a str) -> (r: &'a str)
    ensures
        r@ == trimmed(s@),
{
    let n = s.unicode_len();
    let mut lo: usize = 0;
    while lo < n && is_space(s.get_char(lo))
        invariant
            n == s@.len(),
            0 <= lo <= n,
            forall|j: int| 0 <= j < lo ==> is_space_char(s@[j]),
        decreases n - lo,
    {
        lo = lo + 1;
    }
    let mut hi: usize = n;
    while hi > lo && is_space(s.get_char(hi - 1))
        invariant
            n == s@.len(),
            lo <= hi <= n,
            forall|j: int| hi <= j < n ==> is_space_char(s@[j]),
        decreases hi,
    {
        hi = hi - 1;
    }
    proof {
        lemma_trimmed_subrange(s@, lo as int, hi as int);
    }
    s.substring_char(lo, hi)
}

/// Relies on core::str::from_utf8: it returns Ok exactly when the bytes are
/// valid UTF-8, and the resulting str is their decoding.
#[verifier::external_body]
fn bytes_to_str(bytes: &[u8]) -> (r: Option<&str>)
    ensures
        r is Some <==> valid_utf8(bytes@),
        r is Some ==> r->0@ == decode_utf8(bytes@),
{
    core::str::from_utf8(bytes).ok()
}

/// Extracts the header region of a unit: the leading `len` bytes of its raw
/// text, decoded as UTF-8 and trimmed of surrounding whitespace. Fails
/// exactly when those bytes are not valid UTF-8.
pub fn extract_header(raw: &[u8], len: usize) -> (r: Result<String, CheckError>)
    requires
        len <= raw@.len(),
    ensures
        r is Ok <==> valid_utf8(raw@.subrange(0, len as int)),
        r is Ok ==> r->Ok_0@ == trimmed(decode_utf8(raw@.subrange(0, len as int))),
        r is Err ==> r == Err::<String, CheckError>(CheckError::InvalidEncoding),
{
    let prefix = slice_subrange(raw, 0, len);
    match bytes_to_str(prefix) {
        Some(text) => Ok(trim_text(text).to_owned()),
        None => Err(CheckError::InvalidEncoding),
    }
}

} // verus!
