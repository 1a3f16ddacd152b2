//! Storing and listing notifications: paging, summaries, and errors.
use crate::domain::notification::{
    notification_type_json, NotificationFilters, NotificationSummary, NotificationType,
    NotificationTypeCount,
};
use crate::text::{owned, push_str};
use vstd::prelude::*;

verus! {

/// Why a notification request failed.
#[derive(Debug, Clone, PartialEq, Eq)]
pub enum NotificationServiceError {
    DatabaseError(String),
    NotFound,
    Unauthorized,
    ValidationError(String),
    SerializationError(String),
    UnexpectedError(String),
}

/// The message shown for each notification error.
pub open spec fn notification_error_text(e: NotificationServiceError) -> Seq<char> {
    match e {
        NotificationServiceError::DatabaseError(d) => "Database error: "@ + d@,
        NotificationServiceError::NotFound => "Notification not found"@,
        NotificationServiceError::Unauthorized => "Unauthorized access"@,
        NotificationServiceError::ValidationError(d) => "Validation error: "@ + d@,
        NotificationServiceError::SerializationError(d) => "Serialization error: "@ + d@,
        NotificationServiceError::UnexpectedError(d) => "Unexpected error: "@ + d@,
    }
}

fn prefixed(prefix: &str, detail: &String) -> (r: String)
    ensures
        r@ == prefix@ + detail@,
{
    let mut m = owned(prefix);
    push_str(&mut m, detail.as_str());
    m
}

impl NotificationServiceError {
    /// The error's message.
    pub fn message(&self) -> (r: String)
        ensures
            r@ == notification_error_text(*self),
    {
        match self {
            NotificationServiceError::DatabaseError(d) => prefixed("Database error: ", d),
            NotificationServiceError::NotFound => owned("Notification not found"),
            NotificationServiceError::Unauthorized => owned("Unauthorized access"),
            NotificationServiceError::ValidationError(d) => prefixed("Validation error: ", d),
            NotificationServiceError::SerializationError(d) => prefixed(
                "Serialization error: ",
                d,
            ),
            NotificationServiceError::UnexpectedError(d) => prefixed("Unexpected error: ", d),
        }
    }
}

/// The page asked for: at most 100 notifications, 50 unless told otherwise,
/// from offset 0 unless told otherwise.
pub open spec fn page_of(filters: NotificationFilters) -> (i64, i64) {
    let limit = match filters.limit {
        Some(l) => l,
        None => 50,
    };
    (
        if limit < 100 {
            limit
        } else {
            100
        },
        match filters.offset {
            Some(o) => o,
            None => 0,
        },
    )
}

/// One row of the per-type counts: the stored type, and its counts where the
/// database gave them.
#[derive(Debug, Clone)]
pub struct TypeCountRow {
    pub notification_type: String,
    pub count: Option<i64>,
    pub unread_count: Option<i64>,
}


/// Paging and summarising notifications.
pub struct NotificationService;

impl NotificationService {
    /// The limit and offset of the page `filters` asks for.
    pub fn page_bounds(filters: &NotificationFilters) -> (r: (i64, i64))
        ensures
            r == page_of(*filters),
            r.0 <= 100,
    {
        let limit = match filters.limit {
            Some(l) => l,
            None => 50,
        };
        let limit = if limit < 100 {
            limit
        } else {
            100
        };
        let offset = match filters.offset {
            Some(o) => o,
            None => 0,
        };
        (limit, offset)
    }

    /// Builds a summary from the database's counts: missing counts are zero, and
    /// a stored type that is not one of the known types fails the whole summary.
    pub fn summary_from_rows(
        total_count: Option<i64>,
        unread_count: Option<i64>,
        rows: &Vec<TypeCountRow>,
    ) -> (r: Result<NotificationSummary, NotificationServiceError>)
        ensures
            match r {
                Ok(s) => {
                    &&& s.total_count == match total_count {
                        Some(c) => c,
                        None => 0,
                    }
                    &&& s.unread_count == match unread_count {
                        Some(c) => c,
                        None => 0,
                    }
                    &&& s.notification_types@.len() == rows@.len()
                    &&& forall|i: int|
                        0 <= i < rows@.len() ==> {
                            let t = #[trigger] s.notification_types@[i];
                            &&& notification_type_json(t.notification_type) == rows@[i].notification_type@
                            &&& t.count == match rows@[i].count {
                                Some(c) => c,
                                None => 0,
                            }
                            &&& t.unread_count == match rows@[i].unread_count {
                                Some(c) => c,
                                None => 0,
                            }
                        }
                },
                Err(e) => e is SerializationError && exists|i: int|
                    0 <= i < rows@.len() && forall|t: NotificationType|
                        notification_type_json(t) != (#[trigger] rows@[i]).notification_type@,
            },
    {
        let mut types: Vec<NotificationTypeCount> = Vec::new();
        let mut i: usize = 0;
        while i < rows.len()
            invariant
                i <= rows.len(),
                types@.len() == i,
                forall|k: int|
                    0 <= k < i ==> {
                        let t = #[trigger] types@[k];
                        &&& notification_type_json(t.notification_type) == rows@[k].notification_type@
                        &&& t.count == match rows@[k].count {
                            Some(c) => c,
                            None => 0,
                        }
                        &&& t.unread_count == match rows@[k].unread_count {
                            Some(c) => c,
                            None => 0,
                        }
                    },
            decreases rows.len() - i,
        {
            let row = &rows[i];
            match NotificationType::from_json_text(row.notification_type.as_str()) {
                Some(t) => {
                    types.push(
                        NotificationTypeCount {
                            notification_type: t,
                            count: match row.count {
                                Some(c) => c,
                                None => 0,
                            },
                            unread_count: match row.unread_count {
                                Some(c) => c,
                                None => 0,
                            },
                        },
                    );
                },
                None => {
                    return Err(
                        NotificationServiceError::SerializationError(
                            owned("unknown notification type"),
                        ),
                    );
                },
            }
            i = i + 1;
        }
        Ok(
            NotificationSummary {
                total_count: match total_count {
                    Some(c) => c,
                    None => 0,
                },
                unread_count: match unread_count {
                    Some(c) => c,
                    None => 0,
                },
                notification_types: types,
            },
        )
    }
}

} // verus!
