//! The records of the platform and the bodies of its requests and responses.

pub mod auth;
pub mod comment;
pub mod follow;
pub mod like;
pub mod notification;
pub mod post;
pub mod tag;
pub mod user;

pub use auth::{AuthResponse, AuthResponseView, LoginRequest, MessageResponse, RegisterRequest};
pub use comment::{Comment, CommentResponse, CreateCommentRequest, UpdateCommentRequest};
pub use follow::{Follow, FollowResponse};
pub use like::{Like, LikeResponse};
pub use notification::{Notification, NotificationResponse, NotificationType};
pub use post::{CreatePostRequest, Post, PostResponse, PostStatus, UpdatePostRequest};
pub use tag::{CreateTagRequest, PostTag, Tag, TagResponse};
pub use user::{CreateUserRequest, UpdateUserRequest, User, UserResponse, UserResponseView, UserView};
