//! A bid as it arrives, before it is placed.
use crate::decimal::{decimal_order, is_above, Amount};
use crate::text::{is_blank, is_blank_seq};
use vstd::prelude::*;

verus! {

/// A bid on an item. Identifiers are the 128-bit values of UUIDs, times are
/// microseconds since the Unix epoch.
#[derive(Debug, Clone)]
pub struct NewBid {
    pub item_id: String,
    pub bidder_user_id: u128,
    pub bidder_rating: Option<i32>,
    pub time: i64,
    pub amount: Amount,
    pub bidder_location: Option<String>,
    pub bidder_country: Option<String>,
}

/// The rule a bid breaks first, given how its amount compares with zero.
pub open spec fn bid_error(item_id: Seq<char>, amount_vs_zero: Option<i8>) -> Option<Seq<char>> {
    if is_blank_seq(item_id) {
        Some("Item ID cannot be empty"@)
    } else if !is_above(amount_vs_zero) {
        Some("Bid amount must be greater than zero"@)
    } else {
        None
    }
}

impl NewBid {
    /// Checks the bid, given how its amount compares with zero.
    pub fn check(&self, amount_vs_zero: Option<i8>) -> (r: Result<(), String>)
        ensures
            match r {
                Ok(()) => bid_error(self.item_id@, amount_vs_zero) is None,
                Err(e) => bid_error(self.item_id@, amount_vs_zero) == Some(e@),
            },
    {
        if is_blank(self.item_id.as_str()) {
            return Err("Item ID cannot be empty".to_string());
        }
        match amount_vs_zero {
            Some(1i8) => Ok(()),
            _ => Err("Bid amount must be greater than zero".to_string()),
        }
    }

    /// Checks that the bid names an item and offers more than zero.
    pub fn validate(&self) -> (r: Result<(), String>)
        ensures
            match r {
                Ok(()) => bid_error(self.item_id@, decimal_order(self.amount@, "0"@)) is None,
                Err(e) => bid_error(self.item_id@, decimal_order(self.amount@, "0"@)) == Some(e@),
            },
    {
        let order = self.amount.compare_with("0");
        self.check(order)
    }
}

} // verus!
