//! Tags and their attachment to posts.

use vstd::prelude::*;
use crate::time::Timestamp;

verus! {

/// A tag as stored.
#[derive(Clone, Debug)]
pub struct Tag {
    pub id: u64,
    pub name: String,
    pub slug: String,
    pub created_at: Timestamp,
}

/// The attachment of a tag to a post.
#[derive(Clone, Copy, Debug)]
pub struct PostTag {
    pub post_id: u64,
    pub tag_id: u64,
    pub created_at: Timestamp,
}

/// The body of a request to create a tag.
#[derive(Debug)]
pub struct CreateTagRequest {
    pub name: String,
}

/// A tag as sent to clients.
#[derive(Debug)]
pub struct TagResponse {
    pub id: u64,
    pub name: String,
    pub slug: String,
    pub created_at: Timestamp,
}

/// A tag is sent with every field of the stored record.
pub open spec fn response_of(tag: Tag) -> TagResponse {
    TagResponse {
        id: tag.id,
        name: tag.name,
        slug: tag.slug,
        created_at: tag.created_at,
    }
}

impl From<Tag> for TagResponse {
    fn from(tag: Tag) -> (response: Self)
        ensures
            response == response_of(tag),
    {
        TagResponse {
            id: tag.id,
            name: tag.name,
            slug: tag.slug,
            created_at: tag.created_at,
        }
    }
}

impl vstd::std_specs::convert::FromSpecImpl<Tag> for TagResponse {
    open spec fn obeys_from_spec() -> bool {
        true
    }

    open spec fn from_spec(tag: Tag) -> TagResponse {
        response_of(tag)
    }
}

} // verus!
