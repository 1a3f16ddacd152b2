//! Ending auctions: who won, and what is recorded.
use crate::clock::now_micros;
use crate::decimal::Amount;
use crate::text::{owned, push_str};
use vstd::prelude::*;

verus! {

/// Why ending an auction failed.
#[derive(Debug, Clone, PartialEq, Eq)]
pub enum AuctionServiceError {
    AuctionNotFound,
    DatabaseError(String),
    BidServiceError(String),
    UnexpectedError(String),
}

/// The message shown for each auction error.
pub open spec fn auction_error_text(e: AuctionServiceError) -> Seq<char> {
    match e {
        AuctionServiceError::AuctionNotFound => "Auction not found"@,
        AuctionServiceError::DatabaseError(d) => "Database error: "@ + d@,
        AuctionServiceError::BidServiceError(d) => "Bid service error: "@ + d@,
        AuctionServiceError::UnexpectedError(d) => "Unexpected error: "@ + d@,
    }
}

impl AuctionServiceError {
    /// The error's message.
    pub fn message(&self) -> (r: String)
        ensures
            r@ == auction_error_text(*self),
    {
        match self {
            AuctionServiceError::AuctionNotFound => owned("Auction not found"),
            AuctionServiceError::DatabaseError(d) => {
                let mut m = owned("Database error: ");
                push_str(&mut m, d.as_str());
                m
            },
            AuctionServiceError::BidServiceError(d) => {
                let mut m = owned("Bid service error: ");
                push_str(&mut m, d.as_str());
                m
            },
            AuctionServiceError::UnexpectedError(d) => {
                let mut m = owned("Unexpected error: ");
                push_str(&mut m, d.as_str());
                m
            },
        }
    }
}

/// The record of an ended auction. Identifiers are the 128-bit values of
/// UUIDs; the time is in microseconds since the Unix epoch.
#[derive(Debug, Clone)]
pub struct AuctionInfo {
    pub item_id: String,
    pub seller_user_id: u128,
    pub winner_user_id: Option<u128>,
    pub winning_amount: Option<Amount>,
    pub ended_at: i64,
    pub total_bids: i32,
}

/// What ending an auction reads of its item.
#[derive(Debug, Clone)]
pub struct EndingItem {
    pub seller_user_id: Option<u128>,
    pub number_of_bids: Option<i32>,
    pub currently: Option<Amount>,
}


/// Ending auctions.
pub struct AuctionService;

impl AuctionService {
    /// Ends the auction of `item_id` with `winner` (`None` when nobody bid): the
    /// winning amount is the current price, and only when there is a winner; a
    /// missing seller is recorded as the nil identifier and missing bids as none.
    pub fn auction_result(item_id: &str, item: &EndingItem, winner: Option<u128>) -> (r: AuctionInfo)
        ensures
            r.item_id@ == item_id@,
            r.seller_user_id == match item.seller_user_id {
                Some(s) => s,
                None => 0,
            },
            r.winner_user_id == winner,
            winner is None ==> r.winning_amount is None,
            winner is Some ==> match (r.winning_amount, item.currently) {
                (Some(a), Some(c)) => a@ == c@,
                (None, None) => true,
                _ => false,
            },
            r.total_bids == match item.number_of_bids {
                Some(n) => n,
                None => 0,
            },
    {
        let winning_amount = match winner {
            Some(_) => match &item.currently {
                Some(c) => Some(c.clone()),
                None => None,
            },
            None => None,
        };
        AuctionInfo {
            item_id: owned(item_id),
            seller_user_id: match item.seller_user_id {
                Some(s) => s,
                None => 0,
            },
            winner_user_id: winner,
            winning_amount,
            ended_at: now_micros(),
            total_bids: match item.number_of_bids {
                Some(n) => n,
                None => 0,
            },
        }
    }

    /// Counts the auctions that ended: one for each `true` among the outcomes of
    /// ending the expired auctions in turn.
    pub fn count_ended(outcomes: &Vec<bool>) -> (r: usize)
        ensures
            r == outcomes@.filter(|b: bool| b).len(),
    {
        let mut count: usize = 0;
        let mut i: usize = 0;
        while i < outcomes.len()
            invariant
                i <= outcomes.len(),
                count == outcomes@.take(i as int).filter(|b: bool| b).len(),
                count <= i,
            decreases outcomes.len() - i,
        {
            proof {
                assert(outcomes@.take(i + 1).drop_last() =~= outcomes@.take(i as int));
                outcomes@.take(i as int).lemma_filter_push(outcomes@[i as int], |b: bool| b);
                assert(outcomes@.take(i as int).push(outcomes@[i as int]) =~= outcomes@.take(i + 1));
            }
            if outcomes[i] {
                count = count + 1;
            }
            i = i + 1;
        }
        assert(outcomes@.take(i as int) =~= outcomes@);
        count
    }
}

/// Counts of the auction pages: running auctions, auctions ended today and
/// bids placed today.
#[derive(Debug, Clone, Copy, PartialEq, Eq, Structural)]
pub struct AuctionStats {
    pub active_auctions: i64,
    pub ended_today: i64,
    pub total_bids_today: i64,
}

} // verus!
