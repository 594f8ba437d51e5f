//! The bodies of the authentication requests and responses, and the input
//! rules of the requests.

use vstd::prelude::*;
use vstd::string::*;
use crate::error::{AuthError, InvalidFields};
use crate::models::user::{UserResponse, UserResponseView};
use crate::validation::{
    check_email, check_login_password, check_new_password, check_username, email_syntax_ok,
    login_password_ok, new_password_ok, username_ok,
};

verus! {

/// The body of a registration request.
#[derive(Debug)]
pub struct RegisterRequest {
    pub username: String,
    pub email: String,
    pub password: String,
    pub display_name: Option<String>,
}

/// The body of a login request.
#[derive(Debug)]
pub struct LoginRequest {
    pub email: String,
    pub password: String,
}

/// The body of a successful registration or login.
#[derive(Debug)]
pub struct AuthResponse {
    pub token: String,
    pub user: UserResponse,
}

/// What a successful registration or login returns, as mathematical values.
pub struct AuthResponseView {
    pub token: Seq<char>,
    pub user: UserResponseView,
}

impl View for AuthResponse {
    type V = AuthResponseView;

    open spec fn view(&self) -> AuthResponseView {
        AuthResponseView { token: self.token@, user: self.user@ }
    }
}

/// A body that carries one message.
#[derive(Debug)]
pub struct MessageResponse {
    pub message: String,
}

/// The fields of a registration request that break an input rule: the
/// username must have 3 to 50 characters, the email must be well-formed, the
/// password must have at least 8 characters.
pub open spec fn register_faults(req: RegisterRequest) -> InvalidFields {
    InvalidFields {
        username: !username_ok(req.username@),
        email: !email_syntax_ok(req.email@),
        password: !new_password_ok(req.password@),
    }
}

/// The fields of a login request that break an input rule: the email must be
/// well-formed, the password must not be empty.
pub open spec fn login_faults(req: LoginRequest) -> InvalidFields {
    InvalidFields {
        username: false,
        email: !email_syntax_ok(req.email@),
        password: !login_password_ok(req.password@),
    }
}

impl RegisterRequest {
    /// Checks the input rules. Succeeds exactly where no field breaks its
    /// rule; otherwise the error marks every field that does.
    pub fn validate(&self) -> (checked: Result<(), AuthError>)
        ensures
            match checked {
                Ok(_) => register_faults(*self).is_clean(),
                Err(e) => e == AuthError::Validation(register_faults(*self)) && !register_faults(
                    *self,
                ).is_clean(),
            },
    {
        let faults = InvalidFields {
            username: !check_username(self.username.as_str()),
            email: !check_email(self.email.as_str()),
            password: !check_new_password(self.password.as_str()),
        };
        if faults.none_marked() {
            Ok(())
        } else {
            Err(AuthError::Validation(faults))
        }
    }
}

impl LoginRequest {
    /// Checks the input rules. Succeeds exactly where no field breaks its
    /// rule; otherwise the error marks every field that does.
    pub fn validate(&self) -> (checked: Result<(), AuthError>)
        ensures
            match checked {
                Ok(_) => login_faults(*self).is_clean(),
                Err(e) => e == AuthError::Validation(login_faults(*self)) && !login_faults(
                    *self,
                ).is_clean(),
            },
    {
        let faults = InvalidFields {
            username: false,
            email: !check_email(self.email.as_str()),
            password: !check_login_password(self.password.as_str()),
        };
        if faults.none_marked() {
            Ok(())
        } else {
            Err(AuthError::Validation(faults))
        }
    }
}

} // verus!
