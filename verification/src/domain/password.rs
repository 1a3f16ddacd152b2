//! Password hashing.
use argon2::password_hash::SaltString;
use argon2::{Argon2, PasswordHasher};
use crate::text::utf8_len;
use rand::rngs::OsRng;
use vstd::prelude::*;

verus! {

/// The PHC string that Argon2 with its default parameters gives for
/// `password` hashed with the B64-encoded salt `salt`.
pub uninterp spec fn argon2_phc(password: Seq<char>, salt: Seq<char>) -> Seq<char>;

/// A character of the standard Base64 alphabet, which password-hash's B64
/// encoding uses without padding.
pub open spec fn is_b64_char(c: char) -> bool {
    ('A' <= c && c <= 'Z') || ('a' <= c && c <= 'z') || ('0' <= c && c <= '9') || c == '+' || c
        == '/'
}

/// The unpadded B64 text of 16 bytes: 22 characters of the alphabet, the
/// last of which carries two bits and four zero bits (`A`, `Q`, `g` or `w`).
pub open spec fn is_salt_text(s: Seq<char>) -> bool {
    &&& s.len() == 22
    &&& forall|i: int| 0 <= i < 22 ==> is_b64_char(#[trigger] s[i])
    &&& (s[21] == 'A' || s[21] == 'Q' || s[21] == 'g' || s[21] == 'w')
}

/// `SaltString::generate` (password-hash) with `OsRng` (rand), written with
/// `as_str`: 16 random bytes encoded as unpadded B64. The bytes are random;
/// every outcome is the B64 text of 16 bytes.
#[verifier::external_body]
fn new_salt() -> (r: String)
    ensures
        is_salt_text(r@),
{
    SaltString::generate(&mut OsRng).as_str().to_string()
}

/// `SaltString::from_b64` (password-hash) on `salt`, then
/// `Argon2::default().hash_password` (argon2) on the bytes of `password`,
/// written with `to_string`. The hash is a function of the password and the
/// salt, named by `argon2_phc`; a salt that does not read as B64, or a
/// failure of the hasher, gives the error's message. The hasher fails only on
/// the salt (its characters and length, its decoding, fewer than 8 bytes), on
/// a password longer than `u32::MAX` bytes, or on parameters; the default
/// parameters are valid, so the B64 text of 16 bytes and such a password are
/// always hashed.
#[verifier::external_body]
fn hash_with_salt(password: &str, salt: &str) -> (r: Result<String, String>)
    ensures
        r matches Ok(h) ==> h@ == argon2_phc(password@, salt@),
        is_salt_text(salt@) && utf8_len(password@) <= 0xFFFF_FFFF ==> r is Ok,
{
    match SaltString::from_b64(salt) {
        Ok(s) => match Argon2::default().hash_password(password.as_bytes(), &s) {
            Ok(hash) => Ok(hash.to_string()),
            Err(e) => Err(e.to_string()),
        },
        Err(e) => Err(e.to_string()),
    }
}

/// Hashes `password` with Argon2 (its default parameters) and a fresh random
/// salt, giving the PHC string of the hash. Every password of at most
/// `u32::MAX` bytes is hashed; whatever salt was drawn, the hash is the Argon2
/// hash of `password` with it.
pub fn hash_password(password: &str) -> (r: Result<String, String>)
    ensures
        r matches Ok(h) ==> exists|salt: Seq<char>| is_salt_text(salt) && h@ == argon2_phc(password@, salt),
        utf8_len(password@) <= 0xFFFF_FFFF ==> r is Ok,
{
    let salt = new_salt();
    let r = hash_with_salt(password, salt.as_str());
    proof {
        if r is Ok {
            assert(is_salt_text(salt@) && r->Ok_0@ == argon2_phc(password@, salt@));
        }
    }
    r
}

} // verus!
