//! Text helpers: substring and suffix tests on character sequences, and
//! Unicode lower-casing.

use vstd::prelude::*;
use vstd::string::StringExecFns;

verus! {

/// `needle` stands in `hay` at position `at`.
pub open spec fn occurs_at(needle: Seq<char>, hay: Seq<char>, at: int) -> bool {
    &&& 0 <= at
    &&& at + needle.len() <= hay.len()
    &&& hay.subrange(at, at + needle.len()) == needle
}

/// `needle` stands somewhere in `hay`.  The empty sequence stands in every
/// sequence.
pub open spec fn is_substring(needle: Seq<char>, hay: Seq<char>) -> bool {
    exists|at: int| occurs_at(needle, hay, at)
}

/// `s` ends with `suffix`.
pub open spec fn is_suffix(suffix: Seq<char>, s: Seq<char>) -> bool {
    &&& suffix.len() <= s.len()
    &&& s.subrange(s.len() - suffix.len(), s.len() as int) == suffix
}

/// The lower-case form of a string as `str::to_lowercase` gives it.
pub uninterp spec fn lowercase(s: Seq<char>) -> Seq<char>;

/// `str::to_lowercase`: the result is the Unicode lower-case form of `s`,
/// which depends on the characters of `s` alone.  Nothing else is claimed of
/// it here.
#[verifier::external_body]
pub(crate) fn to_lowercase(s: &str) -> (lowered: String)
    ensures
        lowered@ == lowercase(s@),
{
    s.to_lowercase()
}

/// The characters of `s`, in order.
pub fn chars_of(s: &str) -> (out: Vec<char>)
    ensures
        out@ == s@,
{
    let mut out: Vec<char> = Vec::new();
    for c in it: s.chars()
        invariant
            out@ == it.seq().take(it.index() as int),
            it.seq() == s@,
    {
        out.push(c);
    }
    out
}

/// Whether `needle` stands in `hay` at position `at`.
fn matches_at(hay: &[char], needle: &[char], at: usize) -> (r: bool)
    requires
        at + needle@.len() <= hay@.len(),
    ensures
        r == occurs_at(needle@, hay@, at as int),
{
    let n: usize = needle.len();
    let h: usize = hay.len();
    let mut k: usize = 0;
    while k < n
        invariant
            n == needle@.len(),
            h == hay@.len(),
            at + n <= hay@.len(),
            k <= n,
            forall|i: int| 0 <= i < k ==> hay@[at + i] == needle@[i],
        decreases n - k,
    {
        if hay[at + k] != needle[k] {
            proof {
                let window = hay@.subrange(at as int, at + n);
                assert(window[k as int] == hay@[at + k]);
            }
            return false;
        }
        k = k + 1;
    }
    proof {
        assert(hay@.subrange(at as int, at + n) =~= needle@);
    }
    true
}

/// Whether `needle` stands somewhere in `hay`.
pub fn contains(hay: &[char], needle: &[char]) -> (r: bool)
    ensures
        r == is_substring(needle@, hay@),
{
    let h: usize = hay.len();
    let n: usize = needle.len();
    if n > h {
        return false;
    }
    let last: usize = h - n;
    let mut at: usize = 0;
    while at < last
        invariant
            h == hay@.len(),
            n == needle@.len(),
            n <= h,
            last == h - n,
            at <= last,
            forall|i: int| 0 <= i < at ==> !occurs_at(needle@, hay@, i),
        decreases last - at,
    {
        if matches_at(hay, needle, at) {
            return true;
        }
        at = at + 1;
    }
    matches_at(hay, needle, last)
}

/// Whether `s` ends with `suffix`.
pub fn ends_with(s: &[char], suffix: &[char]) -> (r: bool)
    ensures
        r == is_suffix(suffix@, s@),
{
    let n: usize = suffix.len();
    let len: usize = s.len();
    if n > len {
        return false;
    }
    let r: bool = matches_at(s, suffix, len - n);
    r
}

/// Whether the text `s` ends with the text `suffix`.
pub fn str_ends_with(s: &str, suffix: &str) -> (r: bool)
    ensures
        r == is_suffix(suffix@, s@),
{
    let text: Vec<char> = chars_of(s);
    let tail: Vec<char> = chars_of(suffix);
    ends_with(text.as_slice(), tail.as_slice())
}

/// Whether the two texts are the same, character by character.
pub fn str_equal(a: &str, b: &str) -> (r: bool)
    ensures
        r == (a@ == b@),
{
    let left: String = String::from_str(a);
    let right: String = String::from_str(b);
    left == right
}

/// The views of a list of strings, in order.
pub open spec fn string_views(lines: Seq<String>) -> Seq<Seq<char>> {
    lines.map_values(|line: String| line@)
}

} // verus!
