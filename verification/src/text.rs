use vstd::prelude::*;
use vstd::string::StringSliceAdditionalSpecFns;

verus! {

/// Compares two string slices for equality of their character sequences.
pub fn str_eq(a: &str, b: &str) -> (equal: bool)
    ensures
        equal == (a@ == b@),
{
    let x = a.as_bytes();
    let y = b.as_bytes();
    proof {
        vstd::utf8::encode_utf8_decode_utf8(a@);
        vstd::utf8::encode_utf8_decode_utf8(b@);
    }
    if x.len() != y.len() {
        return false;
    }
    let n = x.len();
    let mut i: usize = 0;
    while i < n
        invariant
            n == x@.len(),
            n == y@.len(),
            x@ == a.spec_bytes(),
            y@ == b.spec_bytes(),
            i <= n,
            forall|j: int| 0 <= j < i ==> x@[j] == y@[j],
        decreases n - i,
    {
        if x[i] != y[i] {
            return false;
        }
        i = i + 1;
    }
    assert(x@ =~= y@);
    true
}


/// A character with ASCII uppercase letters mapped to lowercase.
pub open spec fn spec_ascii_lower_char(c: char) -> char {
    if 'A' <= c && c <= 'Z' {
        ((c as u32) + 32) as char
    } else {
        c
    }
}

/// A character sequence with ASCII uppercase letters mapped to lowercase; other characters kept.
pub open spec fn spec_ascii_lowercase(s: Seq<char>) -> Seq<char> {
    s.map_values(|c: char| spec_ascii_lower_char(c))
}

/// Returns a copy of `s` with ASCII letters lowercased (std `str::to_ascii_lowercase`).
///
/// Trusted: std documents that each ASCII letter 'A'..='Z' maps to 'a'..='z' and every other
/// character is unchanged.
#[verifier::external_body]
pub(crate) fn ascii_lowercase(s: &str) -> (lower: String)
    ensures
        lower@ == spec_ascii_lowercase(s@),
{
    s.to_ascii_lowercase()
}

/// The `Debug` rendering of a string: quoted, with std's escapes.
pub uninterp spec fn spec_debug_str(s: Seq<char>) -> Seq<char>;

/// Returns the `Debug` rendering of `s` (std `<str as Debug>::fmt`, through `format!`).
///
/// Trusted: the rendering is std's quoted and escaped text, a function of `s` alone, which
/// `spec_debug_str` names; its escaping rules are not stated.
#[verifier::external_body]
pub(crate) fn debug_str(s: &str) -> (rendered: String)
    ensures
        rendered@ == spec_debug_str(s@),
{
    format!("{:?}", s)
}

/// The Unicode lowercase mapping of a character sequence, as std's `str::to_lowercase` computes it.
pub uninterp spec fn spec_lowercase(s: Seq<char>) -> Seq<char>;

/// Returns the Unicode lowercase of `s` (std `str::to_lowercase`).
///
/// Trusted: the result is std's full Unicode lowercase mapping, a function of `s` alone, which
/// `spec_lowercase` names; the mapping tables are not stated.
#[verifier::external_body]
pub(crate) fn lowercase(s: &str) -> (lower: String)
    ensures
        lower@ == spec_lowercase(s@),
{
    s.to_lowercase()
}

} // verus!
