//! Who follows whom.

use vstd::prelude::*;
use crate::time::Timestamp;

verus! {

/// A follow relation as stored.
#[derive(Clone, Copy, Debug)]
pub struct Follow {
    pub id: u64,
    pub follower_id: u64,
    pub following_id: u64,
    pub created_at: Timestamp,
}

/// A follow relation as sent to clients.
#[derive(Clone, Copy, Debug)]
pub struct FollowResponse {
    pub id: u64,
    pub follower_id: u64,
    pub following_id: u64,
    pub created_at: Timestamp,
}

/// A follow relation is sent with every field of the stored record.
pub open spec fn response_of(follow: Follow) -> FollowResponse {
    FollowResponse {
        id: follow.id,
        follower_id: follow.follower_id,
        following_id: follow.following_id,
        created_at: follow.created_at,
    }
}

impl From<Follow> for FollowResponse {
    fn from(follow: Follow) -> (response: Self)
        ensures
            response == response_of(follow),
    {
        FollowResponse {
            id: follow.id,
            follower_id: follow.follower_id,
            following_id: follow.following_id,
            created_at: follow.created_at,
        }
    }
}

impl vstd::std_specs::convert::FromSpecImpl<Follow> for FollowResponse {
    open spec fn obeys_from_spec() -> bool {
        true
    }

    open spec fn from_spec(follow: Follow) -> FollowResponse {
        response_of(follow)
    }
}

} // verus!
