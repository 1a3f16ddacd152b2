//! The request handlers' own rules, apart from their I/O.
pub mod admin;
pub mod bids;
pub mod cart;
pub mod categories;
pub mod items;
pub mod messages;
pub mod notifications;
pub mod recommendations;
pub mod user_profile;
pub mod users;
