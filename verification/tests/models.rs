use blog_api::models::{
    Comment, CommentResponse, CreateCommentRequest, CreatePostRequest, CreateTagRequest,
    CreateUserRequest, Follow, FollowResponse, Like, LikeResponse, Notification,
    NotificationResponse, NotificationType, Post, PostResponse, PostStatus, PostTag, Tag,
    TagResponse, UpdateCommentRequest, UpdatePostRequest, UpdateUserRequest, User, UserResponse,
};
use blog_api::time::Timestamp;

const T0: Timestamp = Timestamp { secs: 1_700_000_000, nanos: 1 };
const T1: Timestamp = Timestamp { secs: 1_700_000_500, nanos: 2 };
const T2: Timestamp = Timestamp { secs: 1_700_000_900, nanos: 3 };

fn user() -> User {
    User {
        id: 7,
        username: "alice".to_string(),
        email: "alice@example.com".to_string(),
        password_hash: "$2b$12$secret".to_string(),
        display_name: Some("Alice".to_string()),
        bio: Some("Hello".to_string()),
        profile_picture_url: None,
        created_at: T0,
        updated_at: T1,
        deleted_at: Some(T2),
    }
}

#[test]
fn user_response_keeps_the_public_fields() {
    let response = UserResponse::from(user());
    assert_eq!(response.id, 7);
    assert_eq!(response.username, "alice");
    assert_eq!(response.email, "alice@example.com");
    assert_eq!(response.display_name.as_deref(), Some("Alice"));
    assert_eq!(response.bio.as_deref(), Some("Hello"));
    assert_eq!(response.profile_picture_url, None);
    assert_eq!(response.created_at, T0);
}

#[test]
fn user_response_does_not_show_the_password_hash() {
    let response = UserResponse::from(user());
    let shown = format!("{:?}", response);
    assert!(!shown.contains("$2b$12$secret"));
    assert!(!shown.contains("password"));
}

#[test]
fn user_clone_is_equal_field_by_field() {
    let first = user();
    let copy = first.clone();
    assert_eq!(format!("{:?}", first), format!("{:?}", copy));
}

#[test]
fn comment_response_keeps_every_field() {
    let comment = Comment {
        id: 1,
        post_id: 2,
        author_id: 3,
        content: "Nice".to_string(),
        parent_comment_id: Some(4),
        created_at: T0,
        updated_at: T1,
    };
    let response = CommentResponse::from(comment);
    assert_eq!(response.id, 1);
    assert_eq!(response.post_id, 2);
    assert_eq!(response.author_id, 3);
    assert_eq!(response.content, "Nice");
    assert_eq!(response.parent_comment_id, Some(4));
    assert_eq!(response.created_at, T0);
    assert_eq!(response.updated_at, T1);
}

#[test]
fn follow_response_keeps_every_field() {
    let response = FollowResponse::from(Follow { id: 1, follower_id: 2, following_id: 3, created_at: T0 });
    assert_eq!(response.id, 1);
    assert_eq!(response.follower_id, 2);
    assert_eq!(response.following_id, 3);
    assert_eq!(response.created_at, T0);
}

#[test]
fn like_response_keeps_every_field() {
    let response = LikeResponse::from(Like { id: 1, post_id: 2, user_id: 3, created_at: T0 });
    assert_eq!(response.id, 1);
    assert_eq!(response.post_id, 2);
    assert_eq!(response.user_id, 3);
    assert_eq!(response.created_at, T0);
}

#[test]
fn notification_response_keeps_every_field() {
    let notification = Notification {
        id: 1,
        user_id: 2,
        notification_type: "like".to_string(),
        actor_id: 3,
        post_id: Some(4),
        comment_id: None,
        is_read: true,
        created_at: T0,
    };
    let response = NotificationResponse::from(notification);
    assert_eq!(response.id, 1);
    assert_eq!(response.user_id, 2);
    assert_eq!(response.notification_type, "like");
    assert_eq!(response.actor_id, 3);
    assert_eq!(response.post_id, Some(4));
    assert_eq!(response.comment_id, None);
    assert!(response.is_read);
    assert_eq!(response.created_at, T0);
}

#[test]
fn post_response_keeps_every_field() {
    let post = Post {
        id: 1,
        author_id: 2,
        title: "Title".to_string(),
        content: "Content".to_string(),
        cover_image_url: Some("http://example.com/x.png".to_string()),
        status: "published".to_string(),
        created_at: T0,
        updated_at: T1,
        published_at: Some(T2),
    };
    let response = PostResponse::from(post);
    assert_eq!(response.id, 1);
    assert_eq!(response.author_id, 2);
    assert_eq!(response.title, "Title");
    assert_eq!(response.content, "Content");
    assert_eq!(response.cover_image_url.as_deref(), Some("http://example.com/x.png"));
    assert_eq!(response.status, "published");
    assert_eq!(response.created_at, T0);
    assert_eq!(response.updated_at, T1);
    assert_eq!(response.published_at, Some(T2));
}

#[test]
fn tag_response_keeps_every_field() {
    let tag = Tag { id: 1, name: "Rust".to_string(), slug: "rust".to_string(), created_at: T0 };
    let response = TagResponse::from(tag);
    assert_eq!(response.id, 1);
    assert_eq!(response.name, "Rust");
    assert_eq!(response.slug, "rust");
    assert_eq!(response.created_at, T0);
}

#[test]
fn request_bodies_hold_their_fields() {
    let comment = CreateCommentRequest { content: "c".to_string(), parent_comment_id: None };
    assert_eq!(comment.content, "c");
    assert_eq!(comment.parent_comment_id, None);
    let update = UpdateCommentRequest { content: "d".to_string() };
    assert_eq!(update.content, "d");
    let post = CreatePostRequest {
        title: "t".to_string(),
        content: "c".to_string(),
        cover_image_url: None,
        status: Some(PostStatus::Draft),
    };
    assert_eq!(post.status, Some(PostStatus::Draft));
    let change = UpdatePostRequest { title: None, content: None, cover_image_url: None, status: Some(PostStatus::Published) };
    assert_eq!(change.status, Some(PostStatus::Published));
    let tag = CreateTagRequest { name: "rust".to_string() };
    assert_eq!(tag.name, "rust");
    let create = CreateUserRequest {
        username: "alice".to_string(),
        email: "alice@example.com".to_string(),
        password: "longenough".to_string(),
        display_name: None,
    };
    assert_eq!(create.username, "alice");
    let profile = UpdateUserRequest { display_name: Some("A".to_string()), bio: None, profile_picture_url: None };
    assert_eq!(profile.display_name.as_deref(), Some("A"));
    let attached = PostTag { post_id: 1, tag_id: 2, created_at: T0 };
    assert_eq!(attached.tag_id, 2);
}

#[test]
fn kinds_of_notification_and_post_status_are_distinct() {
    assert_ne!(NotificationType::Like, NotificationType::Comment);
    assert_ne!(NotificationType::Follow, NotificationType::Reply);
    assert_ne!(PostStatus::Draft, PostStatus::Published);
}
