//! Small string helpers used when deriving display names for connectors.

use vstd::prelude::*;
use vstd::string::StrSliceExecFns;
use vstd::string::StringExecFns;

verus! {

/// Relies on `str::eq`: string slices compare equal exactly when they hold
/// the same characters.
pub assume_specification[ <str as PartialEq>::eq ](a: &str, b: &str) -> (r: bool)
    ensures
        r == (a@ == b@),
;

/// True exactly when the two string slices hold the same characters.
pub fn str_eq(a: &str, b: &str) -> (r: bool)
    ensures
        r == (a@ == b@),
{
    a.eq(b)
}

/// The upper-case mapping of one character.
///
/// Relies on `char::to_uppercase`: the mapping is determined by the Unicode
/// tables, so it depends on the character alone.
pub uninterp spec fn upper_of(c: char) -> Seq<char>;

/// Relies on `char::to_uppercase`: yields the upper-case mapping of `c`,
/// which is never empty (a character with no mapping yields itself).
#[verifier::external_body]
fn char_to_uppercase(c: char) -> (r: String)
    ensures
        r@ == upper_of(c),
        r@.len() >= 1,
{
    c.to_uppercase().collect()
}

/// What `capitalize_first` returns: the upper-case mapping of the first
/// character, followed by the rest of the string unchanged.
pub open spec fn capitalized(s: Seq<char>) -> Seq<char> {
    if s.len() == 0 {
        Seq::empty()
    } else {
        upper_of(s[0]) + s.skip(1)
    }
}

/// Returns `s` with its first character converted to upper case and the
/// remaining characters unchanged; an empty string stays empty.
pub fn capitalize_first(s: &str) -> (r: String)
    ensures
        r@ == capitalized(s@),
{
    let n = s.unicode_len();
    if n == 0 {
        String::new()
    } else {
        let first = s.get_char(0);
        let mut out = char_to_uppercase(first);
        let rest = s.substring_char(1, n);
        out.append(rest);
        proof {
            assert(s@.subrange(1, n as int) =~= s@.skip(1));
        }
        out
    }
}

} // verus!
