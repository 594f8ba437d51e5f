//! The error taxonomy shared by every operation of the library.

use vstd::prelude::*;
use vstd::string::*;

verus! {

/// The four kinds of failure a request can end in.
#[derive(Clone, Copy, Debug, PartialEq, Eq, Structural)]
pub enum ErrorKind {
    /// Malformed input that the client can correct.
    Validation,
    /// A uniqueness rule was violated.
    Conflict,
    /// Bad credentials or a bad token.
    Auth,
    /// Storage, hashing or signing failed.
    Internal,
}

/// Which fields of a request broke an input rule (`true` marks a broken field).
#[derive(Clone, Copy, Debug, PartialEq, Eq, Structural)]
pub struct InvalidFields {
    pub username: bool,
    pub email: bool,
    pub password: bool,
}

impl InvalidFields {
    /// No field is marked.
    pub open spec fn is_clean(self) -> bool {
        !self.username && !self.email && !self.password
    }

    #[verifier::when_used_as_spec(is_clean)]
    pub fn none_marked(self) -> (r: bool)
        ensures
            r == self.is_clean(),
    {
        !self.username && !self.email && !self.password
    }
}

/// Every way a registration, a login or a token check can fail.
#[derive(Clone, Copy, Debug, PartialEq, Eq, Structural)]
pub enum AuthError {
    /// At least one field of the request broke an input rule.
    Validation(InvalidFields),
    /// A user with the same normalized email exists.
    EmailTaken,
    /// A user with the same username exists.
    UsernameTaken,
    /// Unknown email or wrong password; deliberately the same for both.
    InvalidCredentials,
    /// The token is malformed, wrongly signed or expired; deliberately the same for all.
    InvalidToken,
    /// Storage, hashing or signing failed.
    Internal,
}

impl AuthError {
    pub open spec fn kind_spec(self) -> ErrorKind {
        match self {
            AuthError::Validation(_) => ErrorKind::Validation,
            AuthError::EmailTaken | AuthError::UsernameTaken => ErrorKind::Conflict,
            AuthError::InvalidCredentials | AuthError::InvalidToken => ErrorKind::Auth,
            AuthError::Internal => ErrorKind::Internal,
        }
    }

    /// The kind this error belongs to.
    #[verifier::when_used_as_spec(kind_spec)]
    pub fn kind(self) -> (k: ErrorKind)
        ensures
            k == self.kind_spec(),
    {
        match self {
            AuthError::Validation(_) => ErrorKind::Validation,
            AuthError::EmailTaken | AuthError::UsernameTaken => ErrorKind::Conflict,
            AuthError::InvalidCredentials | AuthError::InvalidToken => ErrorKind::Auth,
            AuthError::Internal => ErrorKind::Internal,
        }
    }

    pub open spec fn status_code_spec(self) -> u16 {
        match self.kind_spec() {
            ErrorKind::Validation => 400,
            ErrorKind::Conflict => 409,
            ErrorKind::Auth => 401,
            ErrorKind::Internal => 500,
        }
    }

    /// The HTTP status the error is reported with.
    #[verifier::when_used_as_spec(status_code_spec)]
    pub fn status_code(self) -> (code: u16)
        ensures
            code == self.status_code_spec(),
    {
        match self.kind() {
            ErrorKind::Validation => 400,
            ErrorKind::Conflict => 409,
            ErrorKind::Auth => 401,
            ErrorKind::Internal => 500,
        }
    }
}

/// A list of names with one more name added where `marked` holds; names are
/// separated by a comma and a space.
pub open spec fn with_name(list: Seq<char>, marked: bool, name: Seq<char>) -> Seq<char> {
    if !marked {
        list
    } else if list.len() == 0 {
        name
    } else {
        list + ", "@ + name
    }
}

/// The names of the marked fields, in the order username, email, password.
pub open spec fn field_names(fields: InvalidFields) -> Seq<char> {
    with_name(
        with_name(with_name(Seq::empty(), fields.username, "username"@), fields.email, "email"@),
        fields.password,
        "password"@,
    )
}

fn add_name(list: &mut String, marked: bool, name: &str)
    ensures
        final(list)@ == with_name(old(list)@, marked, name@),
{
    if marked {
        if !list.as_str().is_empty() {
            list.append(", ");
        }
        list.append(name);
    }
}

impl AuthError {
    /// The message a client is given. Errors of kind `Auth` and `Internal`
    /// say nothing about their cause.
    pub open spec fn message_text(self) -> Seq<char> {
        match self {
            AuthError::Validation(fields) => "Validation error: "@ + field_names(fields),
            AuthError::EmailTaken => "email taken"@,
            AuthError::UsernameTaken => "username taken"@,
            AuthError::InvalidCredentials => "invalid credentials"@,
            AuthError::InvalidToken => "invalid or expired token"@,
            AuthError::Internal => "Internal server error"@,
        }
    }

    /// The message a client is given.
    pub fn message(self) -> (text: String)
        ensures
            text@ == self.message_text(),
    {
        match self {
            AuthError::Validation(fields) => {
                let mut names = String::new();
                add_name(&mut names, fields.username, "username");
                add_name(&mut names, fields.email, "email");
                add_name(&mut names, fields.password, "password");
                let mut text = String::from_str("Validation error: ");
                text.append(names.as_str());
                text
            },
            AuthError::EmailTaken => String::from_str("email taken"),
            AuthError::UsernameTaken => String::from_str("username taken"),
            AuthError::InvalidCredentials => String::from_str("invalid credentials"),
            AuthError::InvalidToken => String::from_str("invalid or expired token"),
            AuthError::Internal => String::from_str("Internal server error"),
        }
    }
}

} // verus!
