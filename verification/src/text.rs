//! Small string utilities shared across the crate: an exact equality test on
//! string slices and the one call into the standard library's Unicode case
//! conversion.

use vstd::prelude::*;

verus! {

/// The uppercase form of a sequence of characters, as the standard library's
/// `str::to_uppercase` produces it. The conversion follows the Unicode
/// uppercasing tables, which are far too large to restate here, so the result
/// is only named; it is a function of the characters alone.
pub uninterp spec fn upper_of(s: Seq<char>) -> Seq<char>;

/// Relies on `str::to_uppercase`: the result is determined by the input
/// characters alone (Unicode default case conversion, no locale involved).
#[verifier::external_body]
pub fn to_upper(s: &str) -> (r: String)
    ensures
        r@ == upper_of(s@),
{
    s.to_uppercase()
}

/// The boolean a textual value denotes: exactly `"true"` and `"false"`
/// denote one.
pub open spec fn spec_parse_bool(s: Seq<char>) -> Option<bool> {
    if s == "true"@ {
        Some(true)
    } else if s == "false"@ {
        Some(false)
    } else {
        None
    }
}

/// Parses a boolean value. Accepts exactly `"true"` and `"false"`.
pub fn parse_bool(s: &str) -> (r: Option<bool>)
    ensures
        r == spec_parse_bool(s@),
{
    if str_eq(s, "true") {
        Some(true)
    } else if str_eq(s, "false") {
        Some(false)
    } else {
        None
    }
}

/// Equality of two string slices, decided by comparing their character views.
pub fn str_eq(a: &str, b: &str) -> (r: bool)
    ensures
        r == (a@ == b@),
{
    let sa = a.to_owned();
    let sb = b.to_owned();
    sa == sb
}

} // verus!
