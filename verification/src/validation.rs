//! The input rules of the registration and login requests.

use vstd::prelude::*;
use vstd::string::*;

verus! {

/// The shortest username accepted, in characters.
pub const USERNAME_MIN_CHARS: usize = 3;

/// The longest username accepted, in characters.
pub const USERNAME_MAX_CHARS: usize = 50;

/// The shortest password accepted at registration, in characters.
pub const PASSWORD_MIN_CHARS: usize = 8;

/// Whether `validator`'s email check accepts a text as an email address.
pub uninterp spec fn email_syntax_ok(email: Seq<char>) -> bool;

/// Calls `validator::ValidateEmail::validate_email` on the text. Trusted: the
/// verdict depends on the text alone.
#[verifier::external_body]
fn validate_email(email: &str) -> (ok: bool)
    ensures
        ok == email_syntax_ok(email@),
{
    validator::ValidateEmail::validate_email(&email)
}

/// A username is acceptable when it has 3 to 50 characters.
pub open spec fn username_ok(username: Seq<char>) -> bool {
    USERNAME_MIN_CHARS <= username.len() <= USERNAME_MAX_CHARS
}

/// A new password is acceptable when it has at least 8 characters.
pub open spec fn new_password_ok(password: Seq<char>) -> bool {
    password.len() >= PASSWORD_MIN_CHARS
}

/// A password offered at login is acceptable when it is not empty.
pub open spec fn login_password_ok(password: Seq<char>) -> bool {
    password.len() >= 1
}

/// Checks the length rule of usernames.
pub fn check_username(username: &str) -> (ok: bool)
    ensures
        ok == username_ok(username@),
{
    let chars = username.unicode_len();
    USERNAME_MIN_CHARS <= chars && chars <= USERNAME_MAX_CHARS
}

/// Checks the syntax rule of email addresses.
pub fn check_email(email: &str) -> (ok: bool)
    ensures
        ok == email_syntax_ok(email@),
{
    validate_email(email)
}

/// Checks the length rule of new passwords.
pub fn check_new_password(password: &str) -> (ok: bool)
    ensures
        ok == new_password_ok(password@),
{
    password.unicode_len() >= PASSWORD_MIN_CHARS
}

/// Checks that a password offered at login is not empty.
pub fn check_login_password(password: &str) -> (ok: bool)
    ensures
        ok == login_password_ok(password@),
{
    password.unicode_len() >= 1
}

} // verus!
