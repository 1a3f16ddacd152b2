//! Validated domain values: names, e-mail addresses, messages, bids, items.
pub mod bid;
pub mod category;
pub mod item;
pub mod message;
pub mod new_user;
pub mod notification;
pub mod password;
pub mod unicode;
pub mod user_email;
pub mod username;

pub use password::hash_password;
