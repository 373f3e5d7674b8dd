use vstd::prelude::*;

use crate::error::AbunchError;

verus! {

/// Whether `pwhash::bcrypt::verify` accepts `password` against the stored
/// bcrypt string `hash`. It recomputes the hash from the salt and cost that
/// `hash` carries and compares; the result depends on its two arguments alone.
pub uninterp spec fn bcrypt_verifies(password: Seq<char>, hash: Seq<char>) -> bool;

/// Every character of `s` is printable ASCII, from U+0020 (space) to U+007E (`~`).
pub open spec fn is_printable_ascii(s: Seq<char>) -> bool {
    forall|i: int| 0 <= i < s.len() ==> ' ' <= #[trigger] s[i] && s[i] <= '~'
}

/// Length of every bcrypt string that `pwhash::bcrypt::hash` produces.
pub const BCRYPT_HASH_LEN: usize = 60;

/// A login with `password` is accepted against the stored `hash`.
///
/// A stored hash with a character outside printable ASCII never matches:
/// bcrypt's own output is printable ASCII, so the recomputed hash differs
/// from it.
pub open spec fn password_accepted(password: Seq<char>, hash: Seq<char>) -> bool {
    is_printable_ascii(hash) && bcrypt_verifies(password, hash)
}

/// What every hash of `hash_password` looks like: 60 characters starting
/// with `$2b$10$` (variant 2b, cost 10).
pub open spec fn is_bcrypt_2b_10(hash: Seq<char>) -> bool {
    &&& hash.len() == BCRYPT_HASH_LEN as nat
    &&& hash.subrange(0, 7) == "$2b$10$"@
}

#[verifier::external_type_specification]
#[verifier::external_body]
pub struct ExPwhashError(pwhash::error::Error);

/// `pwhash::bcrypt::verify(password, hash)`, named `bcrypt_verifies`.
/// Its salt decoder subtracts 0x20 from each salt character and indexes a
/// 96-entry table with what is left unless that exceeds 0x60: a character
/// below U+0020 overflows the subtraction, and U+0080 indexes past the
/// table. Hashes holding anything but printable ASCII are therefore left out
/// by `requires`.
#[verifier::external_body]
fn bcrypt_verify(password: &str, hash: &str) -> (b: bool)
    requires
        is_printable_ascii(hash@),
    ensures
        b == bcrypt_verifies(password@, hash@),
{
    pwhash::bcrypt::verify(password, hash)
}

/// `pwhash::bcrypt::hash(password)`: a bcrypt string over a fresh random
/// salt. Its source always returns `Ok` with `$2b$10$`, the salt in 22 and
/// the checksum in 31 characters of bcrypt's base-64 alphabet
/// (`./A-Za-z0-9`), so 60 printable ASCII characters; `verify` parses back
/// the same salt and cost from it and recomputes the same string, so it
/// accepts `password`. Which salt was drawn rests on chance and is not stated.
#[verifier::external_body]
fn bcrypt_hash(password: &str) -> (r: Result<String, pwhash::error::Error>)
    ensures
        r is Ok,
        r matches Ok(h) ==> {
            &&& is_printable_ascii(h@)
            &&& is_bcrypt_2b_10(h@)
            &&& bcrypt_verifies(password@, h@)
        },
{
    pwhash::bcrypt::hash(password)
}

/// Whether `s` is printable ASCII throughout.
pub fn printable_ascii(s: &str) -> (b: bool)
    ensures
        b == is_printable_ascii(s@),
{
    let n = s.unicode_len();
    let mut i: usize = 0;
    while i < n
        invariant
            n == s@.len(),
            i <= n,
            forall|j: int| 0 <= j < i ==> ' ' <= #[trigger] s@[j] && s@[j] <= '~',
        decreases n - i,
    {
        let c = s.get_char(i);
        if ' ' > c || c > '~' {
            return false;
        }
        i = i + 1;
    }
    true
}

/// Whether `password` matches the stored bcrypt `hash`.
pub fn password_matches(password: &str, hash: &str) -> (b: bool)
    ensures
        b == password_accepted(password@, hash@),
{
    if printable_ascii(hash) {
        bcrypt_verify(password, hash)
    } else {
        false
    }
}

/// Hashes `password` for storage: a 60-character `$2b$10$` bcrypt string
/// that is accepted for that password (and so is never the password itself
/// unless that is 60 characters long).
pub fn hash_password(password: &str) -> (r: Result<String, AbunchError>)
    ensures
        r is Ok,
        r matches Ok(h) ==> {
            &&& password_accepted(password@, h@)
            &&& is_bcrypt_2b_10(h@)
            &&& password@.len() != BCRYPT_HASH_LEN ==> h@ != password@
        },
{
    match bcrypt_hash(password) {
        Ok(h) => Ok(h),
        Err(_) => Err(AbunchError::PasswordHash),
    }
}

} // verus!
