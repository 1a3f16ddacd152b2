//! An account about to be created.
use crate::decimal::Amount;
use crate::domain::user_email::UserEmail;
use crate::domain::username::Username;
use vstd::prelude::*;

verus! {

/// A calendar date: year, month (1 to 12) and day of the month.
#[derive(Debug, Clone, Copy, PartialEq, Eq, Structural)]
pub struct CalendarDate {
    pub year: i32,
    pub month: u32,
    pub day: u32,
}

/// A new account whose names and e-mail address have been checked.
pub struct NewUser {
    pub username: Username,
    pub email: UserEmail,
    pub password_hash: String,
    pub first_name: Username,
    pub last_name: Username,
    pub phone: String,
    pub date_of_birth: CalendarDate,
    pub seller_rating: Option<Amount>,
    pub tax_id: Option<String>,
    pub location: Option<String>,
    pub country: Option<String>,
}

} // verus!
