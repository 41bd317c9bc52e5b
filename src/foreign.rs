//! The calls this library makes into code it does not verify, each behind a
//! small function whose contract states what the called code guarantees.
use vstd::prelude::*;

verus! {

/// The character of a decimal digit `d` (`0 <= d <= 9`).
pub open spec fn digit_char(d: int) -> char {
    if d == 0 {
        '0'
    } else if d == 1 {
        '1'
    } else if d == 2 {
        '2'
    } else if d == 3 {
        '3'
    } else if d == 4 {
        '4'
    } else if d == 5 {
        '5'
    } else if d == 6 {
        '6'
    } else if d == 7 {
        '7'
    } else if d == 8 {
        '8'
    } else {
        '9'
    }
}

/// The three decimal digits of an HTTP status code (`100 <= code <= 999`).
pub open spec fn status_digits(code: u16) -> Seq<char> {
    seq![
        digit_char(code as int / 100),
        digit_char((code as int / 10) % 10),
        digit_char(code as int % 10),
    ]
}

/// The reason phrase that follows the digits when a status code is shown:
/// the canonical one for a known code, a fixed placeholder otherwise.
pub uninterp spec fn status_reason(code: u16) -> Seq<char>;

/// What `str::to_lowercase` returns for `s`.
pub uninterp spec fn lower_of(s: Seq<char>) -> Seq<char>;

/// Relies on the `Display` of `reqwest::StatusCode` (http's `StatusCode`):
/// it writes the code as a decimal number, one space, then the reason phrase.
/// `StatusCode::from_u16` accepts exactly the codes from 100 to 999.
#[verifier::external_body]
pub(crate) fn status_line(code: u16) -> (r: String)
    requires
        100 <= code <= 999,
    ensures
        r@ == status_digits(code) + seq![' '] + status_reason(code),
{
    reqwest::StatusCode::from_u16(code).unwrap().to_string()
}

/// Relies on `str::to_lowercase`: the result depends on the characters alone,
/// and the empty string stays empty.
#[verifier::external_body]
pub(crate) fn lowercase(s: &str) -> (r: String)
    ensures
        r@ == lower_of(s@),
        s@.len() == 0 ==> r@.len() == 0,
{
    s.to_lowercase()
}

} // verus!
