//! A user's profile pages: who may see them, and the statistics they show.
use crate::text::str_eq;
use vstd::prelude::*;

verus! {

/// Why a profile request failed.
#[derive(Debug, Clone, Copy, PartialEq, Eq, Structural)]
pub enum UserProfileError {
    NotFound,
    Unauthorized,
    Forbidden,
    InvalidPassword,
    ValidationError,
}

/// The HTTP status and message of each profile error.
pub open spec fn profile_error_reply(e: UserProfileError) -> (u16, Seq<char>) {
    match e {
        UserProfileError::NotFound => (404u16, "User not found"@),
        UserProfileError::Unauthorized => (401u16, "Authentication required"@),
        UserProfileError::Forbidden => (403u16, "Access denied"@),
        UserProfileError::InvalidPassword => (400u16, "Invalid current password"@),
        UserProfileError::ValidationError => (400u16, "Invalid input data"@),
    }
}

impl UserProfileError {
    /// The HTTP status of the error.
    pub fn status_code(&self) -> (r: u16)
        ensures
            r == profile_error_reply(*self).0,
    {
        match self {
            UserProfileError::NotFound => 404,
            UserProfileError::Unauthorized => 401,
            UserProfileError::Forbidden => 403,
            UserProfileError::InvalidPassword => 400,
            UserProfileError::ValidationError => 400,
        }
    }

    /// The message of the error.
    pub fn message(&self) -> (r: &'static str)
        ensures
            r@ == profile_error_reply(*self).1,
    {
        match self {
            UserProfileError::NotFound => "User not found",
            UserProfileError::Unauthorized => "Authentication required",
            UserProfileError::Forbidden => "Access denied",
            UserProfileError::InvalidPassword => "Invalid current password",
            UserProfileError::ValidationError => "Invalid input data",
        }
    }
}

/// A user's own profile is open to them and to administrators only.
pub open spec fn may_view_profile(requesting_user_id: u128, user_id: u128, role: Seq<char>) -> bool {
    requesting_user_id == user_id || role == "admin"@
}

/// Checks that `requesting_user_id`, with `role`, may see or change the
/// profile of `user_id`.
pub fn check_profile_access(requesting_user_id: u128, user_id: u128, role: &str) -> (r: Result<
    (),
    UserProfileError,
>)
    ensures
        r is Ok <==> may_view_profile(requesting_user_id, user_id, role@),
        r matches Err(e) ==> e == UserProfileError::Forbidden,
{
    if requesting_user_id != user_id && !str_eq(role, "admin") {
        Err(UserProfileError::Forbidden)
    } else {
        Ok(())
    }
}

/// A password change must prove the current password, unless an
/// administrator makes it.
pub fn needs_current_password(role: &str) -> (r: bool)
    ensures
        r == (role@ != "admin"@),
{
    !str_eq(role, "admin")
}

/// A user's trading figures.
#[derive(Debug, Clone, Copy, PartialEq, Eq, Structural)]
pub struct UserStats {
    pub items_sold: i64,
    pub active_auctions: i64,
    pub active_fixed_price: i64,
    pub successful_bids: i64,
}

impl UserStats {
    /// The figures from the counts the database gives: items sold are won
    /// auctions plus direct sales, successful bids are auctions won plus
    /// direct purchases.
    pub fn from_counts(
        auction_sales: i64,
        direct_sales: i64,
        active_auctions: i64,
        active_fixed_price: i64,
        auction_wins: i64,
        direct_purchases: i64,
    ) -> (r: UserStats)
        requires
            i64::MIN <= auction_sales + direct_sales <= i64::MAX,
            i64::MIN <= auction_wins + direct_purchases <= i64::MAX,
        ensures
            r.items_sold == auction_sales + direct_sales,
            r.active_auctions == active_auctions,
            r.active_fixed_price == active_fixed_price,
            r.successful_bids == auction_wins + direct_purchases,
    {
        UserStats {
            items_sold: auction_sales + direct_sales,
            active_auctions,
            active_fixed_price,
            successful_bids: auction_wins + direct_purchases,
        }
    }
}

/// A request to change a password.
#[derive(Debug, Clone)]
pub struct PasswordChangeRequest {
    pub current_password: String,
    pub new_password: String,
}

/// The query of a user's active listings: optionally one listing type.
#[derive(Debug, Clone)]
pub struct ActiveListingsQuery {
    pub listing_type: Option<String>,
}

} // verus!
