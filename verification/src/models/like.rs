//! Likes on posts.

use vstd::prelude::*;
use crate::time::Timestamp;

verus! {

/// A like as stored.
#[derive(Clone, Copy, Debug)]
pub struct Like {
    pub id: u64,
    pub post_id: u64,
    pub user_id: u64,
    pub created_at: Timestamp,
}

/// A like as sent to clients.
#[derive(Clone, Copy, Debug)]
pub struct LikeResponse {
    pub id: u64,
    pub post_id: u64,
    pub user_id: u64,
    pub created_at: Timestamp,
}

/// A like is sent with every field of the stored record.
pub open spec fn response_of(like: Like) -> LikeResponse {
    LikeResponse {
        id: like.id,
        post_id: like.post_id,
        user_id: like.user_id,
        created_at: like.created_at,
    }
}

impl From<Like> for LikeResponse {
    fn from(like: Like) -> (response: Self)
        ensures
            response == response_of(like),
    {
        LikeResponse {
            id: like.id,
            post_id: like.post_id,
            user_id: like.user_id,
            created_at: like.created_at,
        }
    }
}

impl vstd::std_specs::convert::FromSpecImpl<Like> for LikeResponse {
    open spec fn obeys_from_spec() -> bool {
        true
    }

    open spec fn from_spec(like: Like) -> LikeResponse {
        response_of(like)
    }
}

} // verus!
