//! Users: the stored record, the public view, and the request bodies.

use vstd::prelude::*;
use crate::time::Timestamp;

verus! {

/// The text of an optional string.
pub open spec fn text_of(field: Option<String>) -> Option<Seq<char>> {
    match field {
        Some(s) => Some(s@),
        None => None,
    }
}

/// Copies an optional string.
pub fn copy_text(field: &Option<String>) -> (copy: Option<String>)
    ensures
        copy == *field,
{
    match field {
        Some(s) => Some(s.clone()),
        None => None,
    }
}

/// A user as stored. The password hash never leaves through a response.
#[derive(Debug)]
pub struct User {
    pub id: u64,
    pub username: String,
    pub email: String,
    pub password_hash: String,
    pub display_name: Option<String>,
    pub bio: Option<String>,
    pub profile_picture_url: Option<String>,
    pub created_at: Timestamp,
    pub updated_at: Timestamp,
    pub deleted_at: Option<Timestamp>,
}

/// What a stored user holds, as mathematical values.
pub struct UserView {
    pub id: u64,
    pub username: Seq<char>,
    pub email: Seq<char>,
    pub password_hash: Seq<char>,
    pub display_name: Option<Seq<char>>,
    pub bio: Option<Seq<char>>,
    pub profile_picture_url: Option<Seq<char>>,
    pub created_at: Timestamp,
    pub updated_at: Timestamp,
    pub deleted_at: Option<Timestamp>,
}

impl View for User {
    type V = UserView;

    open spec fn view(&self) -> UserView {
        UserView {
            id: self.id,
            username: self.username@,
            email: self.email@,
            password_hash: self.password_hash@,
            display_name: text_of(self.display_name),
            bio: text_of(self.bio),
            profile_picture_url: text_of(self.profile_picture_url),
            created_at: self.created_at,
            updated_at: self.updated_at,
            deleted_at: self.deleted_at,
        }
    }
}

impl Clone for User {
    fn clone(&self) -> (copy: Self)
        ensures
            copy == *self,
    {
        User {
            id: self.id,
            username: self.username.clone(),
            email: self.email.clone(),
            password_hash: self.password_hash.clone(),
            display_name: copy_text(&self.display_name),
            bio: copy_text(&self.bio),
            profile_picture_url: copy_text(&self.profile_picture_url),
            created_at: self.created_at,
            updated_at: self.updated_at,
            deleted_at: self.deleted_at,
        }
    }
}

impl UserView {
    /// Soft-deleted users carry a deletion time.
    pub open spec fn is_deleted(self) -> bool {
        self.deleted_at is Some
    }
}

/// The body of a request to create a user.
#[derive(Debug)]
pub struct CreateUserRequest {
    pub username: String,
    pub email: String,
    pub password: String,
    pub display_name: Option<String>,
}

/// The body of a request to change a user's profile.
#[derive(Debug)]
pub struct UpdateUserRequest {
    pub display_name: Option<String>,
    pub bio: Option<String>,
    pub profile_picture_url: Option<String>,
}

/// The public view of a user: everything but the password hash, the update
/// time and the deletion time.
#[derive(Debug)]
pub struct UserResponse {
    pub id: u64,
    pub username: String,
    pub email: String,
    pub display_name: Option<String>,
    pub bio: Option<String>,
    pub profile_picture_url: Option<String>,
    pub created_at: Timestamp,
}

/// What a public view holds, as mathematical values.
pub struct UserResponseView {
    pub id: u64,
    pub username: Seq<char>,
    pub email: Seq<char>,
    pub display_name: Option<Seq<char>>,
    pub bio: Option<Seq<char>>,
    pub profile_picture_url: Option<Seq<char>>,
    pub created_at: Timestamp,
}

impl View for UserResponse {
    type V = UserResponseView;

    open spec fn view(&self) -> UserResponseView {
        UserResponseView {
            id: self.id,
            username: self.username@,
            email: self.email@,
            display_name: text_of(self.display_name),
            bio: text_of(self.bio),
            profile_picture_url: text_of(self.profile_picture_url),
            created_at: self.created_at,
        }
    }
}

/// The public view of a stored user.
pub open spec fn public_view(user: UserView) -> UserResponseView {
    UserResponseView {
        id: user.id,
        username: user.username,
        email: user.email,
        display_name: user.display_name,
        bio: user.bio,
        profile_picture_url: user.profile_picture_url,
        created_at: user.created_at,
    }
}

impl From<User> for UserResponse {
    fn from(user: User) -> (response: Self)
        ensures
            response@ == public_view(user@),
    {
        UserResponse {
            id: user.id,
            username: user.username,
            email: user.email,
            display_name: user.display_name,
            bio: user.bio,
            profile_picture_url: user.profile_picture_url,
            created_at: user.created_at,
        }
    }
}

impl vstd::std_specs::convert::FromSpecImpl<User> for UserResponse {
    open spec fn obeys_from_spec() -> bool {
        true
    }

    open spec fn from_spec(user: User) -> UserResponse {
        UserResponse {
            id: user.id,
            username: user.username,
            email: user.email,
            display_name: user.display_name,
            bio: user.bio,
            profile_picture_url: user.profile_picture_url,
            created_at: user.created_at,
        }
    }
}

} // verus!
