//! Placing bids: the request, its checks, and what follows a placed bid.
use crate::decimal::{decimal_order, Amount};
use crate::domain::bid::{bid_error, NewBid};
use vstd::prelude::*;

verus! {

/// A bid as a client sends it. Identifiers are the 128-bit values of UUIDs
/// and the time is in microseconds since the Unix epoch.
#[derive(Debug)]
pub struct BidRequest {
    pub bidder_user_id: u128,
    pub bidder_rating: Option<i32>,
    pub time: i64,
    pub amount: Amount,
    pub bidder_location: Option<String>,
    pub bidder_country: Option<String>,
}

impl BidRequest {
    /// Turns the request into a bid on `item_id` and checks it.
    pub fn into_new_bid(self, item_id: String) -> (r: Result<NewBid, String>)
        ensures
            match r {
                Ok(bid) => bid.item_id == item_id && bid.bidder_user_id == self.bidder_user_id
                    && bid.bidder_rating == self.bidder_rating && bid.time == self.time
                    && bid.amount@ == self.amount@ && bid.bidder_location == self.bidder_location
                    && bid.bidder_country == self.bidder_country && bid_error(
                    item_id@,
                    decimal_order(self.amount@, "0"@),
                ) is None,
                Err(e) => bid_error(item_id@, decimal_order(self.amount@, "0"@)) == Some(e@),
            },
    {
        let bid = NewBid {
            item_id,
            bidder_user_id: self.bidder_user_id,
            bidder_rating: self.bidder_rating,
            time: self.time,
            amount: self.amount,
            bidder_location: self.bidder_location,
            bidder_country: self.bidder_country,
        };
        match bid.validate() {
            Ok(()) => Ok(bid),
            Err(e) => Err(e),
        }
    }
}

/// Why a bid request failed, or that it ended the auction at once.
#[derive(Debug, Clone, Copy, PartialEq, Eq, Structural)]
pub enum BidError {
    ValidationError,
    NotFound,
    ItemNotFound,
    BidTooLow,
    AuctionEnded,
    SelfBidding,
    BuyItNowTriggered,
    ServiceError,
}

/// The HTTP status and message of each bid error.
pub open spec fn bid_error_reply(e: BidError) -> (u16, Seq<char>) {
    match e {
        BidError::ValidationError => (400u16, "Invalid bid data provided"@),
        BidError::NotFound => (404u16, "Bid not found"@),
        BidError::ItemNotFound => (404u16, "Item not found"@),
        BidError::BidTooLow => (400u16, "Bid amount must be higher than current price"@),
        BidError::AuctionEnded => (400u16, "Auction has ended"@),
        BidError::SelfBidding => (400u16, "Cannot bid on your own item"@),
        BidError::BuyItNowTriggered => (200u16, "Buy-it-now triggered, auction ended"@),
        BidError::ServiceError => (500u16, "Internal service error"@),
    }
}

impl BidError {
    /// The HTTP status of the error.
    pub fn status_code(&self) -> (r: u16)
        ensures
            r == bid_error_reply(*self).0,
    {
        match self {
            BidError::ValidationError => 400,
            BidError::NotFound => 404,
            BidError::ItemNotFound => 404,
            BidError::BidTooLow => 400,
            BidError::AuctionEnded => 400,
            BidError::SelfBidding => 400,
            BidError::BuyItNowTriggered => 200,
            BidError::ServiceError => 500,
        }
    }

    /// The message of the error.
    pub fn message(&self) -> (r: &'static str)
        ensures
            r@ == bid_error_reply(*self).1,
    {
        match self {
            BidError::ValidationError => "Invalid bid data provided",
            BidError::NotFound => "Bid not found",
            BidError::ItemNotFound => "Item not found",
            BidError::BidTooLow => "Bid amount must be higher than current price",
            BidError::AuctionEnded => "Auction has ended",
            BidError::SelfBidding => "Cannot bid on your own item",
            BidError::BuyItNowTriggered => "Buy-it-now triggered, auction ended",
            BidError::ServiceError => "Internal service error",
        }
    }
}

/// Checks a bid request from `requesting_user_id` for `item_id`: the sender
/// must bid for themselves, and the bid must be valid.
pub fn accept_bid_request(requesting_user_id: u128, request: BidRequest, item_id: String) -> (r:
    Result<NewBid, BidError>)
    ensures
        match r {
            Ok(bid) => requesting_user_id == request.bidder_user_id && bid.item_id == item_id
                && bid.bidder_user_id == request.bidder_user_id && bid.amount@ == request.amount@
                && bid.time == request.time && bid_error(
                item_id@,
                decimal_order(request.amount@, "0"@),
            ) is None,
            Err(e) => e == BidError::ValidationError && (requesting_user_id
                != request.bidder_user_id || bid_error(
                item_id@,
                decimal_order(request.amount@, "0"@),
            ) is Some),
        },
{
    if requesting_user_id != request.bidder_user_id {
        return Err(BidError::ValidationError);
    }
    match request.into_new_bid(item_id) {
        Ok(bid) => Ok(bid),
        Err(_) => Err(BidError::ValidationError),
    }
}

/// What a placed bid leads to: the HTTP status of the answer, whether the
/// bidder it outbid is told, and whether the auction is announced as ended
/// (else the bid itself is announced).
#[derive(Debug, Clone, Copy, PartialEq, Eq, Structural)]
pub struct BidFollowUp {
    pub status: u16,
    pub notify_outbid: bool,
    pub announce_auction_end: bool,
}

/// Decides what follows a placed bid: a buy-it-now bid is answered `200 OK`,
/// any other `201 Created`; an outbid bidder is told only while the auction
/// goes on; an ended auction is announced as ended.
pub fn bid_follow_up(is_buy_it_now: bool, auction_ended: bool) -> (r: BidFollowUp)
    ensures
        r.status == (if is_buy_it_now {
            200u16
        } else {
            201u16
        }),
        r.notify_outbid == !auction_ended,
        r.announce_auction_end == auction_ended,
{
    BidFollowUp {
        status: if is_buy_it_now {
            200
        } else {
            201
        },
        notify_outbid: !auction_ended,
        announce_auction_end: auction_ended,
    }
}

} // verus!
