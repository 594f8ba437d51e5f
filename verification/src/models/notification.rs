//! Notifications.

use vstd::prelude::*;
use crate::time::Timestamp;

verus! {

/// What a notification tells its receiver about.
#[derive(Clone, Copy, Debug, PartialEq, Eq, Structural)]
pub enum NotificationType {
    Like,
    Comment,
    Follow,
    Reply,
}

/// A notification as stored; its type is kept as text.
#[derive(Clone, Debug)]
pub struct Notification {
    pub id: u64,
    pub user_id: u64,
    pub notification_type: String,
    pub actor_id: u64,
    pub post_id: Option<u64>,
    pub comment_id: Option<u64>,
    pub is_read: bool,
    pub created_at: Timestamp,
}

/// A notification as sent to clients.
#[derive(Debug)]
pub struct NotificationResponse {
    pub id: u64,
    pub user_id: u64,
    pub notification_type: String,
    pub actor_id: u64,
    pub post_id: Option<u64>,
    pub comment_id: Option<u64>,
    pub is_read: bool,
    pub created_at: Timestamp,
}

/// A notification is sent with every field of the stored record.
pub open spec fn response_of(notification: Notification) -> NotificationResponse {
    NotificationResponse {
        id: notification.id,
        user_id: notification.user_id,
        notification_type: notification.notification_type,
        actor_id: notification.actor_id,
        post_id: notification.post_id,
        comment_id: notification.comment_id,
        is_read: notification.is_read,
        created_at: notification.created_at,
    }
}

impl From<Notification> for NotificationResponse {
    fn from(notification: Notification) -> (response: Self)
        ensures
            response == response_of(notification),
    {
        NotificationResponse {
            id: notification.id,
            user_id: notification.user_id,
            notification_type: notification.notification_type,
            actor_id: notification.actor_id,
            post_id: notification.post_id,
            comment_id: notification.comment_id,
            is_read: notification.is_read,
            created_at: notification.created_at,
        }
    }
}

impl vstd::std_specs::convert::FromSpecImpl<Notification> for NotificationResponse {
    open spec fn obeys_from_spec() -> bool {
        true
    }

    open spec fn from_spec(notification: Notification) -> NotificationResponse {
        response_of(notification)
    }
}

} // verus!
