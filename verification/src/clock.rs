//! Identifiers and timestamps, which come from chance and the clock.
use vstd::prelude::*;
use crate::text::is_digit;

verus! {

/// A lowercase hexadecimal digit.
pub open spec fn is_lower_hex(c: char) -> bool {
    ('0' <= c && c <= '9') || ('a' <= c && c <= 'f')
}

/// The hyphenated lowercase text of a random UUID (version 4, RFC 4122
/// variant): 36 characters, hyphens at 8, 13, 18 and 23, lowercase
/// hexadecimal digits elsewhere, `4` at 14 (the version) and one of `8`,
/// `9`, `a`, `b` at 19 (the variant).
pub open spec fn is_uuid_v4_text(s: Seq<char>) -> bool {
    &&& s.len() == 36
    &&& forall|i: int| #![trigger s[i]]
        0 <= i < 36 ==> if i == 8 || i == 13 || i == 18 || i == 23 {
            s[i] == '-'
        } else {
            is_lower_hex(s[i])
        }
    &&& s[14] == '4'
    &&& (s[19] == '8' || s[19] == '9' || s[19] == 'a' || s[19] == 'b')
}

/// Calls `uuid::Uuid::new_v4` and gives its text (`Display`, the hyphenated
/// lowercase form). The value is random; claimed is only its form, which
/// holds of every outcome: `new_v4` sets the version and variant bits.
#[verifier::external_body]
pub(crate) fn new_id() -> (r: String)
    ensures
        is_uuid_v4_text(r@),
{
    uuid::Uuid::new_v4().to_string()
}

/// The characters of `s` from `start` up to `end` are decimal digits.
pub open spec fn digits_between(s: Seq<char>, start: int, end: int) -> bool {
    forall|i: int| #![trigger s[i]] start <= i < end ==> is_digit(s[i])
}

/// `s` is laid out as `Y-MM-DDTHH:MM:SS`, then, where `frac` is not 0, `.`
/// and `frac` (3, 6 or 9) digits, then `+00:00`; the year `Y` takes
/// `year_len` characters: 4 digits, or `+` and 5 or more digits.
pub open spec fn rfc3339_utc_layout(s: Seq<char>, year_len: int, frac: int) -> bool {
    let y = year_len;
    let f = if frac == 0 { 0 } else { frac + 1 };
    &&& (year_len == 4 && digits_between(s, 0, 4)) || (year_len >= 6 && s[0] == '+' && digits_between(s, 1, year_len))
    &&& frac == 0 || frac == 3 || frac == 6 || frac == 9
    &&& s.len() == y + 15 + f + 6
    &&& s[y] == '-' && digits_between(s, y + 1, y + 3)
    &&& s[y + 3] == '-' && digits_between(s, y + 4, y + 6)
    &&& s[y + 6] == 'T' && digits_between(s, y + 7, y + 9)
    &&& s[y + 9] == ':' && digits_between(s, y + 10, y + 12)
    &&& s[y + 12] == ':' && digits_between(s, y + 13, y + 15)
    &&& frac != 0 ==> s[y + 15] == '.' && digits_between(s, y + 16, y + 16 + frac)
    &&& s[y + 15 + f] == '+' && s[y + 16 + f] == '0' && s[y + 17 + f] == '0'
    &&& s[y + 18 + f] == ':' && s[y + 19 + f] == '0' && s[y + 20 + f] == '0'
}

/// `s` is an RFC 3339 date and time in UTC as `chrono` writes it: the date,
/// `T`, the time to the second, the fraction of a second where it is not
/// zero (3, 6 or 9 digits), and the offset `+00:00`.
pub open spec fn is_rfc3339_utc_text(s: Seq<char>) -> bool {
    exists|year_len: int, frac: int| #[trigger] rfc3339_utc_layout(s, year_len, frac)
}

/// Calls `chrono::Utc::now` and gives its RFC 3339 text. The time is that of
/// the call; claimed is only the form of the text, which holds of every
/// outcome: `to_rfc3339` writes the year (4 digits, or a sign and more
/// digits past 9999), month, day, hour, minute and second as two digits
/// each, the nanoseconds only where they are not zero (as 3, 6 or 9
/// digits), and the offset of `Utc` as `+00:00`.
#[verifier::external_body]
pub(crate) fn now_rfc3339() -> (r: String)
    ensures
        is_rfc3339_utc_text(r@),
{
    chrono::Utc::now().to_rfc3339()
}

} // verus!
