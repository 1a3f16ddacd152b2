//! An item listed for sale, before it is stored.
use crate::decimal::{decimal_order, is_above, is_at_least, Amount};
use crate::text::{is_blank, is_blank_seq, str_eq};
use vstd::prelude::*;

verus! {

/// A new listing. Identifiers are the 128-bit values of UUIDs, times are
/// microseconds since the Unix epoch. The
/// coordinates of a listing (latitude and longitude) are floating point and
/// travel beside this value, outside the library.
#[derive(Debug)]
pub struct NewItem {
    pub item_id: String,
    pub listing_type: String,
    pub name: String,
    pub price: Amount,
    pub currently: Option<Amount>,
    pub buy_price: Option<Amount>,
    pub number_of_bids: Option<i32>,
    pub location: Option<String>,
    pub country: Option<String>,
    pub started: i64,
    pub ends: Option<i64>,
    pub description: Option<String>,
    pub seller_user_id: u128,
    pub seller_rating: Option<Amount>,
    pub condition: Option<String>,
    pub shipping_cost: Amount,
    pub categories: Vec<String>,
}

/// How the amounts of a listing compare: the price with zero, the current
/// price with the price, and the shipping cost with zero.
#[derive(Debug, Clone, Copy, PartialEq, Eq, Structural)]
pub struct ItemAmountOrders {
    pub price_vs_zero: Option<i8>,
    pub currently_vs_price: Option<i8>,
    pub shipping_vs_zero: Option<i8>,
}

/// The rule an auction listing breaks first, if any.
pub open spec fn auction_error(item: NewItem, currently_vs_price: Option<i8>) -> Option<Seq<char>> {
    if item.ends is None {
        Some("Auction items must have an end date"@)
    } else if item.started >= item.ends->0 {
        Some("Start time must be before end time"@)
    } else if item.currently is None {
        Some("Auction items must have a current price"@)
    } else if !is_at_least(currently_vs_price) {
        Some("Current price cannot be less than starting price"@)
    } else {
        None
    }
}

/// The rule a listing breaks first, as `validate` reports it, given how its
/// amounts compare.
pub open spec fn item_error(item: NewItem, orders: ItemAmountOrders) -> Option<Seq<char>> {
    if is_blank_seq(item.item_id@) {
        Some("Item ID cannot be empty"@)
    } else if is_blank_seq(item.name@) {
        Some("Item name cannot be empty"@)
    } else if !is_above(orders.price_vs_zero) {
        Some("Price must be greater than zero"@)
    } else if item.listing_type@ == "auction"@ && auction_error(item, orders.currently_vs_price) is Some {
        auction_error(item, orders.currently_vs_price)
    } else if item.listing_type@ == "fixed_price"@ && (item.ends is Some || item.currently is Some
        || item.number_of_bids is Some) {
        Some("Fixed price items should not have 'ends', 'currently', or 'number_of_bids' fields"@)
    } else if item.listing_type@ != "auction"@ && item.listing_type@ != "fixed_price"@ {
        Some("Invalid listing type specified"@)
    } else if !is_at_least(orders.shipping_vs_zero) {
        Some("Shipping cost cannot be negative"@)
    } else if item.categories.len() == 0 {
        Some("Item must have at least one category"@)
    } else {
        None
    }
}

/// How `BigDecimal` orders the amounts of `item`.
pub open spec fn item_orders(item: NewItem) -> ItemAmountOrders {
    ItemAmountOrders {
        price_vs_zero: decimal_order(item.price@, "0"@),
        currently_vs_price: match item.currently {
            Some(c) => decimal_order(c@, item.price@),
            None => None,
        },
        shipping_vs_zero: decimal_order(item.shipping_cost@, "0"@),
    }
}

impl NewItem {
    fn check_auction(&self, currently_vs_price: Option<i8>) -> (r: Result<(), String>)
        ensures
            match r {
                Ok(()) => auction_error(*self, currently_vs_price) is None,
                Err(e) => auction_error(*self, currently_vs_price) == Some(e@),
            },
    {
        match self.ends {
            None => {
                return Err("Auction items must have an end date".to_string());
            },
            Some(ends) => {
                if self.started >= ends {
                    return Err("Start time must be before end time".to_string());
                }
            },
        }
        if self.currently.is_none() {
            return Err("Auction items must have a current price".to_string());
        }
        match currently_vs_price {
            Some(0i8) | Some(1i8) => Ok(()),
            _ => Err("Current price cannot be less than starting price".to_string()),
        }
    }

    /// Checks the listing, given how its amounts compare.
    pub fn check(&self, orders: ItemAmountOrders) -> (r: Result<(), String>)
        ensures
            match r {
                Ok(()) => item_error(*self, orders) is None,
                Err(e) => item_error(*self, orders) == Some(e@),
            },
    {
        if is_blank(self.item_id.as_str()) {
            return Err("Item ID cannot be empty".to_string());
        }
        if is_blank(self.name.as_str()) {
            return Err("Item name cannot be empty".to_string());
        }
        match orders.price_vs_zero {
            Some(1i8) => {},
            _ => {
                return Err("Price must be greater than zero".to_string());
            },
        }
        proof {
            reveal_strlit("auction");
            reveal_strlit("fixed_price");
            assert("auction"@.len() != "fixed_price"@.len());
        }
        if str_eq(self.listing_type.as_str(), "auction") {
            match self.check_auction(orders.currently_vs_price) {
                Ok(()) => {},
                Err(e) => {
                    return Err(e);
                },
            }
        } else if str_eq(self.listing_type.as_str(), "fixed_price") {
            if self.ends.is_some() || self.currently.is_some() || self.number_of_bids.is_some() {
                return Err(
                    "Fixed price items should not have 'ends', 'currently', or 'number_of_bids' fields".to_string(),
                );
            }
        } else {
            return Err("Invalid listing type specified".to_string());
        }
        match orders.shipping_vs_zero {
            Some(0i8) | Some(1i8) => {},
            _ => {
                return Err("Shipping cost cannot be negative".to_string());
            },
        }
        if self.categories.len() == 0 {
            return Err("Item must have at least one category".to_string());
        }
        Ok(())
    }

    /// How `BigDecimal` orders the amounts of this listing.
    pub fn amount_orders(&self) -> (r: ItemAmountOrders)
        ensures
            r == item_orders(*self),
    {
        let currently_vs_price = match &self.currently {
            Some(c) => c.compare_with(self.price.as_str()),
            None => None,
        };
        ItemAmountOrders {
            price_vs_zero: self.price.compare_with("0"),
            currently_vs_price,
            shipping_vs_zero: self.shipping_cost.compare_with("0"),
        }
    }

    /// Checks the listing: it names an item, has a name and a positive price,
    /// follows the rules of its listing type, ships at no negative cost and has
    /// a category.
    pub fn validate(&self) -> (r: Result<(), String>)
        ensures
            match r {
                Ok(()) => item_error(*self, item_orders(*self)) is None,
                Err(e) => item_error(*self, item_orders(*self)) == Some(e@),
            },
    {
        let orders = self.amount_orders();
        self.check(orders)
    }
}

} // verus!
