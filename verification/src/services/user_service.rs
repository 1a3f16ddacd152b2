//! Accounts: the status a new account starts in, and how administrators move
//! it between pending, confirmed and suspended.
use crate::text::{owned, push_str, str_eq};
use vstd::prelude::*;

verus! {

/// Why an account operation failed.
#[derive(Debug, Clone, PartialEq, Eq)]
pub enum UserServiceError {
    NotFound,
    DatabaseError(String),
    UnexpectedError(String),
}

/// The message shown for each account error.
pub open spec fn user_error_text(e: UserServiceError) -> Seq<char> {
    match e {
        UserServiceError::NotFound => "User not found"@,
        UserServiceError::DatabaseError(d) => "Database error: "@ + d@,
        UserServiceError::UnexpectedError(d) => "Unexpected error: "@ + d@,
    }
}

impl UserServiceError {
    /// The error's message.
    pub fn message(&self) -> (r: String)
        ensures
            r@ == user_error_text(*self),
    {
        match self {
            UserServiceError::NotFound => owned("User not found"),
            UserServiceError::DatabaseError(d) => {
                let mut m = owned("Database error: ");
                push_str(&mut m, d.as_str());
                m
            },
            UserServiceError::UnexpectedError(d) => {
                let mut m = owned("Unexpected error: ");
                push_str(&mut m, d.as_str());
                m
            },
        }
    }
}

/// Where an account stands.
#[derive(Debug, Clone, Copy, PartialEq, Eq, Structural)]
pub enum UserStatus {
    Pending,
    Confirmed,
    Suspended,
}

/// The stored name of each status.
pub open spec fn status_name(s: UserStatus) -> Seq<char> {
    match s {
        UserStatus::Pending => "pending"@,
        UserStatus::Confirmed => "confirmed"@,
        UserStatus::Suspended => "suspended"@,
    }
}

impl UserStatus {
    /// The name under which the status is stored.
    pub fn as_str(&self) -> (r: &'static str)
        ensures
            r@ == status_name(*self),
    {
        match self {
            UserStatus::Pending => "pending",
            UserStatus::Confirmed => "confirmed",
            UserStatus::Suspended => "suspended",
        }
    }

    /// The status stored under `name`, if it is one.
    pub fn parse(name: &str) -> (r: Option<UserStatus>)
        ensures
            match r {
                Some(s) => status_name(s) == name@,
                None => forall|s: UserStatus| status_name(s) != name@,
            },
    {
        if str_eq(name, "pending") {
            Some(UserStatus::Pending)
        } else if str_eq(name, "confirmed") {
            Some(UserStatus::Confirmed)
        } else if str_eq(name, "suspended") {
            Some(UserStatus::Suspended)
        } else {
            proof {
                assert forall|s: UserStatus| status_name(s) != name@ by {
                    match s {
                        UserStatus::Pending => {},
                        UserStatus::Confirmed => {},
                        UserStatus::Suspended => {},
                    }
                }
            }
            None
        }
    }
}

/// The sellers created by seeding start confirmed; everyone else waits for
/// an administrator.
pub open spec fn initial_status(username: Seq<char>) -> UserStatus {
    if username == "o paliatzis"@ || username == "o psaras"@ {
        UserStatus::Confirmed
    } else {
        UserStatus::Pending
    }
}

/// What an administrator does to an account.
#[derive(Debug, Clone, Copy, PartialEq, Eq, Structural)]
pub enum StatusAction {
    Verify,
    Suspend,
    Activate,
}

/// The status `action` leads to from `current` (`None`: no such account), or
/// `None` when the action does not apply: verifying confirms a pending
/// account, suspending stops a confirmed or pending one, activating confirms
/// a suspended one.
pub open spec fn transition(current: Option<UserStatus>, action: StatusAction) -> Option<UserStatus> {
    match (current, action) {
        (Some(UserStatus::Pending), StatusAction::Verify) => Some(UserStatus::Confirmed),
        (Some(UserStatus::Confirmed), StatusAction::Suspend) => Some(UserStatus::Suspended),
        (Some(UserStatus::Pending), StatusAction::Suspend) => Some(UserStatus::Suspended),
        (Some(UserStatus::Suspended), StatusAction::Activate) => Some(UserStatus::Confirmed),
        _ => None,
    }
}

/// No action leads back to pending: once an account leaves the queue it never
/// returns to it.
pub proof fn lemma_never_back_to_pending(current: Option<UserStatus>, action: StatusAction)
    ensures
        transition(current, action) != Some(UserStatus::Pending),
{
}

/// Suspending an account and activating it again leaves it confirmed, from
/// either status a suspension applies to.
pub proof fn lemma_suspend_then_activate(s: UserStatus)
    requires
        s != UserStatus::Suspended,
    ensures
        transition(transition(Some(s), StatusAction::Suspend), StatusAction::Activate) == Some(
            UserStatus::Confirmed,
        ),
{
}

/// Each action applies to exactly one kind of account and cannot be applied
/// twice in a row.
pub proof fn lemma_actions_not_repeatable(current: Option<UserStatus>, action: StatusAction)
    ensures
        transition(transition(current, action), action) is None,
{
}


/// Accounts and their status.
pub struct UserService;

impl UserService {
    /// The status a new account with `username` starts in.
    pub fn status_for_new_user(username: &str) -> (r: UserStatus)
        ensures
            r == initial_status(username@),
    {
        if str_eq(username, "o paliatzis") || str_eq(username, "o psaras") {
            UserStatus::Confirmed
        } else {
            UserStatus::Pending
        }
    }

    /// Applies `action` to an account in status `current` (`None` when there is
    /// no such account). An action that does not apply changes nothing and is
    /// reported as `NotFound`, as no row matches the update.
    pub fn apply_status_action(current: Option<UserStatus>, action: StatusAction) -> (r: Result<
        UserStatus,
        UserServiceError,
    >)
        ensures
            match r {
                Ok(s) => transition(current, action) == Some(s),
                Err(e) => transition(current, action) is None && e == UserServiceError::NotFound,
            },
    {
        match (current, action) {
            (Some(UserStatus::Pending), StatusAction::Verify) => Ok(UserStatus::Confirmed),
            (Some(UserStatus::Confirmed), StatusAction::Suspend) => Ok(UserStatus::Suspended),
            (Some(UserStatus::Pending), StatusAction::Suspend) => Ok(UserStatus::Suspended),
            (Some(UserStatus::Suspended), StatusAction::Activate) => Ok(UserStatus::Confirmed),
            _ => Err(UserServiceError::NotFound),
        }
    }
}


/// Each action applies exactly to the accounts its update names, and leads to
/// one status: verifying takes a pending account to confirmed, suspending a
/// pending or confirmed account to suspended, activating a suspended account
/// to confirmed. In particular an account leaves pending only by verification
/// (to confirmed) or suspension, and only a suspended account is activated.
pub proof fn lemma_actions_apply_where_their_update_does(
    current: Option<UserStatus>,
    action: StatusAction,
)
    ensures
        action == StatusAction::Verify ==> (transition(current, action) is Some <==> current == Some(
            UserStatus::Pending,
        )),
        action == StatusAction::Suspend ==> (transition(current, action) is Some <==> (current
            == Some(UserStatus::Pending) || current == Some(UserStatus::Confirmed))),
        action == StatusAction::Activate ==> (transition(current, action) is Some <==> current
            == Some(UserStatus::Suspended)),
        transition(current, action) is Some ==> transition(current, action) == Some(
            if action == StatusAction::Suspend {
                UserStatus::Suspended
            } else {
                UserStatus::Confirmed
            },
        ),
        current == Some(UserStatus::Pending) && transition(current, action) is Some ==> (action
            == StatusAction::Verify || action == StatusAction::Suspend),
{
}

} // verus!
