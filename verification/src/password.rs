//! Password hashing: a slow salted one-way hash at a fixed work factor, and
//! the check of a password against a stored hash.

use vstd::prelude::*;
use crate::text::digit_char;

verus! {

/// The work factor every stored password is hashed with.
pub const PASSWORD_HASH_COST: u32 = 12;

/// `bcrypt::BcryptError`, the error of `bcrypt::hash` and `bcrypt::verify`.
/// Nothing is known of a value of it; it is only told apart from success.
#[verifier::external_type_specification]
#[verifier::external_body]
pub struct ExBcryptError(bcrypt::BcryptError);

/// What `bcrypt::verify` makes of a password and a stored hash: `Some(true)`
/// where they match, `Some(false)` where they do not, `None` where the hash
/// cannot be read.
pub uninterp spec fn password_check(password: Seq<char>, hash: Seq<char>) -> Option<bool>;

/// How every hash made at a given work factor begins: the version `2b` and
/// the work factor in two digits, each between dollar signs.
pub open spec fn hash_prefix(cost: u32) -> Seq<char> {
    seq!['$', '2', 'b', '$', digit_char((cost / 10) as nat), digit_char((cost % 10) as nat), '$']
}

/// Whether a hash was made at a given work factor, as its beginning tells.
pub open spec fn hashed_at_cost(hash: Seq<char>, cost: u32) -> bool {
    hash.len() >= 7 && hash.subrange(0, 7) == hash_prefix(cost)
}

/// Whether a text is a hash of a password as this library stores it: it
/// matches the password and was made at the work factor of 12.
pub open spec fn is_hash_of(hash: Seq<char>, password: Seq<char>) -> bool {
    password_check(password, hash) == Some(true) && hashed_at_cost(hash, PASSWORD_HASH_COST)
}

/// Calls `bcrypt::hash`, which salts with fresh random bytes. Trusted: a hash
/// that comes back is one that `bcrypt::verify` accepts for the same password,
/// and it begins with the version `2b` and the work factor it was made at;
/// nothing is claimed about the rest of it, nor that a hash comes back.
#[verifier::external_body]
fn bcrypt_hash(password: &str, cost: u32) -> (hashed: Result<String, bcrypt::BcryptError>)
    ensures
        hashed matches Ok(h) ==> password_check(password@, h@) == Some(true) && hashed_at_cost(
            h@,
            cost,
        ),
{
    bcrypt::hash(password, cost)
}

/// Calls `bcrypt::verify`. Trusted: the outcome depends on the password and
/// the hash alone.
#[verifier::external_body]
fn bcrypt_verify(password: &str, hash: &str) -> (checked: Result<bool, bcrypt::BcryptError>)
    ensures
        match checked {
            Ok(matches) => password_check(password@, hash@) == Some(matches),
            Err(_) => password_check(password@, hash@) is None,
        },
{
    bcrypt::verify(password, hash)
}

/// Hashes a password for storage, salted, at the work factor of 12. A hash
/// that is returned matches the password; `None` reports that the hash could
/// not be computed.
pub fn hash_password(password: &str) -> (hashed: Option<String>)
    ensures
        hashed matches Some(h) ==> is_hash_of(h@, password@),
{
    match bcrypt_hash(password, PASSWORD_HASH_COST) {
        Ok(h) => Some(h),
        Err(_) => None,
    }
}

/// Checks a password against a stored hash.
pub fn verify_password(password: &str, hash: &str) -> (checked: Option<bool>)
    ensures
        checked == password_check(password@, hash@),
{
    match bcrypt_verify(password, hash) {
        Ok(matches) => Some(matches),
        Err(_) => None,
    }
}

} // verus!
