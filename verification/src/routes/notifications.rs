//! How the notification endpoints answer failures.
use crate::domain::notification::{NotificationFilters, NotificationType};
use crate::text::{chars_of, contains_chars, contains_seq};
use vstd::prelude::*;

verus! {

/// Why a notification request failed.
#[derive(Debug, Clone, Copy, PartialEq, Eq, Structural)]
pub enum NotificationError {
    ValidationError,
    NotFound,
    Unauthorized,
}

impl NotificationError {
    /// The HTTP status and message of the error.
    pub fn reply(&self) -> (r: (u16, &'static str))
        ensures
            match *self {
                NotificationError::ValidationError => r.0 == 400 && r.1@
                    == "Invalid notification data provided"@,
                NotificationError::NotFound => r.0 == 404 && r.1@ == "Notification not found"@,
                NotificationError::Unauthorized => r.0 == 403 && r.1@
                    == "Not authorized to access this notification"@,
            },
    {
        match self {
            NotificationError::ValidationError => (400, "Invalid notification data provided"),
            NotificationError::NotFound => (404, "Notification not found"),
            NotificationError::Unauthorized => (403, "Not authorized to access this notification"),
        }
    }
}

/// How a failed update or deletion is answered, from the text the error
/// displays: a text that mentions `not found` is a missing notification,
/// any other a validation error.
pub fn classify_failure(displayed: &str) -> (r: NotificationError)
    ensures
        r == if contains_seq(displayed@, "not found"@) {
            NotificationError::NotFound
        } else {
            NotificationError::ValidationError
        },
{
    let hay = chars_of(displayed);
    let needle = chars_of("not found");
    if contains_chars(&hay, &needle) {
        NotificationError::NotFound
    } else {
        NotificationError::ValidationError
    }
}

/// The query of the notification list.
#[derive(Debug, Clone, Copy, PartialEq, Eq, Structural)]
pub struct NotificationQuery {
    pub notification_type: Option<NotificationType>,
    pub is_read: Option<bool>,
    pub limit: Option<i64>,
    pub offset: Option<i64>,
}

impl NotificationQuery {
    /// The filters the query asks for, field by field.
    pub fn into_filters(self) -> (r: NotificationFilters)
        ensures
            r.notification_type == self.notification_type,
            r.is_read == self.is_read,
            r.limit == self.limit,
            r.offset == self.offset,
    {
        NotificationFilters {
            notification_type: self.notification_type,
            is_read: self.is_read,
            limit: self.limit,
            offset: self.offset,
        }
    }
}

/// The answer to marking every notification read.
#[derive(Debug, Clone, Copy, PartialEq, Eq, Structural)]
pub struct MarkAsReadResponse {
    pub marked_count: usize,
    pub success: bool,
}

} // verus!
