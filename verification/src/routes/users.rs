//! Accounts as the API sees them: sign-up requests and the administrators'
//! status changes.
use crate::decimal::Amount;
use crate::domain::new_user::{CalendarDate, NewUser};
use crate::domain::user_email::{is_valid_user_email, UserEmail};
use crate::domain::username::{is_valid_username, Username};
use crate::services::user_service::{
    transition, StatusAction, UserService, UserStatus,
};
use crate::text::str_eq;
use vstd::prelude::*;

verus! {

/// A sign-up request as a client sends it.
#[derive(Debug)]
pub struct User {
    pub username: String,
    pub email: String,
    pub password_hash: String,
    pub first_name: String,
    pub last_name: String,
    pub phone: String,
    pub date_of_birth: CalendarDate,
    pub seller_rating: Option<Amount>,
    pub tax_id: Option<String>,
    pub location: Option<String>,
    pub country: Option<String>,
}

/// The first field of a sign-up request that is refused, with its message.
pub open spec fn sign_up_error(value: User) -> Option<Seq<char>> {
    if !is_valid_username(value.username@) {
        Some(value.username@ + " is not a valid username."@)
    } else if !is_valid_user_email(value.email@) {
        Some(value.email@ + " is not a valid user email."@)
    } else if !is_valid_username(value.first_name@) {
        Some(value.first_name@ + " is not a valid username."@)
    } else if !is_valid_username(value.last_name@) {
        Some(value.last_name@ + " is not a valid username."@)
    } else {
        None
    }
}

impl NewUser {
    /// Checks the names and the address of a sign-up request, in that order,
    /// and keeps the other fields as they are.
    pub fn try_from(value: User) -> (r: Result<NewUser, String>)
        ensures
            match r {
                Ok(u) => sign_up_error(value) is None && u.username.text() == value.username@
                    && u.email.text() == value.email@ && u.first_name.text() == value.first_name@
                    && u.last_name.text() == value.last_name@ && u.password_hash
                    == value.password_hash && u.phone == value.phone && u.date_of_birth
                    == value.date_of_birth && u.seller_rating == value.seller_rating && u.tax_id
                    == value.tax_id && u.location == value.location && u.country == value.country,
                Err(e) => sign_up_error(value) == Some(e@),
            },
    {
        let username = match Username::parse(value.username) {
            Ok(n) => n,
            Err(e) => {
                return Err(e);
            },
        };
        let email = match UserEmail::parse(value.email) {
            Ok(m) => m,
            Err(e) => {
                return Err(e);
            },
        };
        let first_name = match Username::parse(value.first_name) {
            Ok(n) => n,
            Err(e) => {
                return Err(e);
            },
        };
        let last_name = match Username::parse(value.last_name) {
            Ok(n) => n,
            Err(e) => {
                return Err(e);
            },
        };
        Ok(
            NewUser {
                username,
                email,
                password_hash: value.password_hash,
                first_name,
                last_name,
                phone: value.phone,
                date_of_birth: value.date_of_birth,
                seller_rating: value.seller_rating,
                tax_id: value.tax_id,
                location: value.location,
                country: value.country,
            },
        )
    }
}

/// Why a sign-up failed.
#[derive(Debug, Clone, Copy, PartialEq, Eq, Structural)]
pub enum CreateUserError {
    ValidationError,
    UsernameTaken,
}

impl CreateUserError {
    /// The HTTP status and message of the error.
    pub fn reply(&self) -> (r: (u16, &'static str))
        ensures
            r.0 == 400,
            r.1@ == match *self {
                CreateUserError::ValidationError => "Invalid user data provided"@,
                CreateUserError::UsernameTaken => "Username is taken"@,
            },
    {
        match self {
            CreateUserError::ValidationError => (400, "Invalid user data provided"),
            CreateUserError::UsernameTaken => (400, "Username is taken"),
        }
    }
}

/// Why an administrator's status change failed.
#[derive(Debug, Clone, Copy, PartialEq, Eq, Structural)]
pub enum StatusChangeError {
    UserNotFound,
    AuthenticationError,
}

/// The outcome of `action` by a caller with `role` on an account in status
/// `current`: only administrators act, and the action must apply.
pub open spec fn status_change_outcome(
    role: Seq<char>,
    action: StatusAction,
    current: Option<UserStatus>,
) -> Result<UserStatus, StatusChangeError> {
    if role != "admin"@ {
        Err(StatusChangeError::AuthenticationError)
    } else {
        match transition(current, action) {
            Some(s) => Ok(s),
            None => Err(StatusChangeError::UserNotFound),
        }
    }
}

/// Applies an administrator's `action` to an account in status `current`
/// (`None` when there is no such account).
pub fn change_user_status(role: &str, action: StatusAction, current: Option<UserStatus>) -> (r:
    Result<UserStatus, StatusChangeError>)
    ensures
        r == status_change_outcome(role@, action, current),
{
    if !str_eq(role, "admin") {
        return Err(StatusChangeError::AuthenticationError);
    }
    match UserService::apply_status_action(current, action) {
        Ok(s) => Ok(s),
        Err(_) => Err(StatusChangeError::UserNotFound),
    }
}

/// The HTTP status and message of a failed status change, which name what
/// each action expects of the account.
pub open spec fn status_change_reply(action: StatusAction, e: StatusChangeError) -> (u16, Seq<char>) {
    match e {
        StatusChangeError::AuthenticationError => (403u16, "Admin access required"@),
        StatusChangeError::UserNotFound => match action {
            StatusAction::Verify => (404u16, "User not found"@),
            StatusAction::Suspend => (404u16, "User not found or already suspended"@),
            StatusAction::Activate => (404u16, "User not found or not suspended"@),
        },
    }
}

/// The HTTP status and message answering a failed status change.
pub fn status_change_error_reply(action: StatusAction, e: StatusChangeError) -> (r: (
    u16,
    &'static str,
))
    ensures
        r.0 == status_change_reply(action, e).0,
        r.1@ == status_change_reply(action, e).1,
{
    match e {
        StatusChangeError::AuthenticationError => (403, "Admin access required"),
        StatusChangeError::UserNotFound => match action {
            StatusAction::Verify => (404, "User not found"),
            StatusAction::Suspend => (404, "User not found or already suspended"),
            StatusAction::Activate => (404, "User not found or not suspended"),
        },
    }
}

/// Only administrators may list accounts.
pub fn is_admin(role: &str) -> (r: bool)
    ensures
        r == (role@ == "admin"@),
{
    str_eq(role, "admin")
}

} // verus!
