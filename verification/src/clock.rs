//! Fresh identifiers and the current time.
use vstd::prelude::*;

verus! {

/// A lowercase hexadecimal digit.
pub open spec fn is_lower_hex_digit(c: char) -> bool {
    ('0' <= c && c <= '9') || ('a' <= c && c <= 'f')
}

/// The hyphenated text of a version-4 UUID: 36 characters, hyphens at
/// positions 8, 13, 18 and 23, lowercase hexadecimal digits elsewhere, the
/// version digit `4` at position 14 and a variant digit `8`, `9`, `a` or `b`
/// at position 19.
pub open spec fn is_uuid_text(s: Seq<char>) -> bool {
    &&& s.len() == 36
    &&& forall|i: int|
        0 <= i < 36 ==> if i == 8 || i == 13 || i == 18 || i == 23 {
            #[trigger] s[i] == '-'
        } else {
            is_lower_hex_digit(s[i])
        }
    &&& s[14] == '4'
    &&& (s[19] == '8' || s[19] == '9' || s[19] == 'a' || s[19] == 'b')
}

/// `Uuid::new_v4` (uuid), as the 128-bit value of the identifier. The value
/// is random; what every outcome has, as `new_v4` sets it, is the version
/// nibble 4 (bits 76 to 79) and the RFC 4122 variant bits `10` (bits 62 and
/// 63).
#[verifier::external_body]
pub(crate) fn new_v4_id() -> (r: u128)
    ensures
        r & 0xf000c000000000000000u128 == 0x40008000000000000000u128,
{
    uuid::Uuid::new_v4().as_u128()
}

/// `Uuid::new_v4` (uuid), written with `to_string`, which gives its
/// hyphenated lowercase form. The value is random; every outcome is the text
/// of a version-4 UUID.
#[verifier::external_body]
pub(crate) fn new_v4_text() -> (r: String)
    ensures
        is_uuid_text(r@),
{
    uuid::Uuid::new_v4().to_string()
}

/// `Utc::now` (chrono), in microseconds since the Unix epoch. It reads the
/// clock: nothing is stated of it.
#[verifier::external_body]
pub(crate) fn now_micros() -> (r: i64) {
    chrono::Utc::now().timestamp_micros()
}

} // verus!
