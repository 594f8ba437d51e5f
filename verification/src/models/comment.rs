//! Comments on posts.

use vstd::prelude::*;
use crate::time::Timestamp;

verus! {

/// A comment as stored.
#[derive(Clone, Debug)]
pub struct Comment {
    pub id: u64,
    pub post_id: u64,
    pub author_id: u64,
    pub content: String,
    pub parent_comment_id: Option<u64>,
    pub created_at: Timestamp,
    pub updated_at: Timestamp,
}

/// The body of a request to write a comment.
#[derive(Debug)]
pub struct CreateCommentRequest {
    pub content: String,
    pub parent_comment_id: Option<u64>,
}

/// The body of a request to change a comment.
#[derive(Debug)]
pub struct UpdateCommentRequest {
    pub content: String,
}

/// A comment as sent to clients.
#[derive(Debug)]
pub struct CommentResponse {
    pub id: u64,
    pub post_id: u64,
    pub author_id: u64,
    pub content: String,
    pub parent_comment_id: Option<u64>,
    pub created_at: Timestamp,
    pub updated_at: Timestamp,
}

/// A comment is sent with every field of the stored record.
pub open spec fn response_of(comment: Comment) -> CommentResponse {
    CommentResponse {
        id: comment.id,
        post_id: comment.post_id,
        author_id: comment.author_id,
        content: comment.content,
        parent_comment_id: comment.parent_comment_id,
        created_at: comment.created_at,
        updated_at: comment.updated_at,
    }
}

impl From<Comment> for CommentResponse {
    fn from(comment: Comment) -> (response: Self)
        ensures
            response == response_of(comment),
    {
        CommentResponse {
            id: comment.id,
            post_id: comment.post_id,
            author_id: comment.author_id,
            content: comment.content,
            parent_comment_id: comment.parent_comment_id,
            created_at: comment.created_at,
            updated_at: comment.updated_at,
        }
    }
}

impl vstd::std_specs::convert::FromSpecImpl<Comment> for CommentResponse {
    open spec fn obeys_from_spec() -> bool {
        true
    }

    open spec fn from_spec(comment: Comment) -> CommentResponse {
        response_of(comment)
    }
}

} // verus!
