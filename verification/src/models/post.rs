//! Posts.

use vstd::prelude::*;
use crate::time::Timestamp;

verus! {

/// Whether a post is still being written or can be read by everyone.
#[derive(Clone, Copy, Debug, PartialEq, Eq, Structural)]
pub enum PostStatus {
    Draft,
    Published,
}

/// A post as stored; its status is kept as text.
#[derive(Clone, Debug)]
pub struct Post {
    pub id: u64,
    pub author_id: u64,
    pub title: String,
    pub content: String,
    pub cover_image_url: Option<String>,
    pub status: String,
    pub created_at: Timestamp,
    pub updated_at: Timestamp,
    pub published_at: Option<Timestamp>,
}

/// The body of a request to write a post.
#[derive(Debug)]
pub struct CreatePostRequest {
    pub title: String,
    pub content: String,
    pub cover_image_url: Option<String>,
    pub status: Option<PostStatus>,
}

/// The body of a request to change a post.
#[derive(Debug)]
pub struct UpdatePostRequest {
    pub title: Option<String>,
    pub content: Option<String>,
    pub cover_image_url: Option<String>,
    pub status: Option<PostStatus>,
}

/// A post as sent to clients.
#[derive(Debug)]
pub struct PostResponse {
    pub id: u64,
    pub author_id: u64,
    pub title: String,
    pub content: String,
    pub cover_image_url: Option<String>,
    pub status: String,
    pub created_at: Timestamp,
    pub updated_at: Timestamp,
    pub published_at: Option<Timestamp>,
}

/// A post is sent with every field of the stored record.
pub open spec fn response_of(post: Post) -> PostResponse {
    PostResponse {
        id: post.id,
        author_id: post.author_id,
        title: post.title,
        content: post.content,
        cover_image_url: post.cover_image_url,
        status: post.status,
        created_at: post.created_at,
        updated_at: post.updated_at,
        published_at: post.published_at,
    }
}

impl From<Post> for PostResponse {
    fn from(post: Post) -> (response: Self)
        ensures
            response == response_of(post),
    {
        PostResponse {
            id: post.id,
            author_id: post.author_id,
            title: post.title,
            content: post.content,
            cover_image_url: post.cover_image_url,
            status: post.status,
            created_at: post.created_at,
            updated_at: post.updated_at,
            published_at: post.published_at,
        }
    }
}

impl vstd::std_specs::convert::FromSpecImpl<Post> for PostResponse {
    open spec fn obeys_from_spec() -> bool {
        true
    }

    open spec fn from_spec(post: Post) -> PostResponse {
        response_of(post)
    }
}

} // verus!
