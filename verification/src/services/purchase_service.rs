//! Buying an item outright: who may buy, at what price, and whom to tell.
use crate::clock::now_micros;
use crate::decimal::Amount;
use crate::text::{owned, push_str, str_eq};
use vstd::prelude::*;

verus! {

/// Why a purchase failed.
#[derive(Debug, Clone, PartialEq, Eq)]
pub enum PurchaseServiceError {
    ItemNotFound,
    ItemNotAvailable,
    ItemAlreadySold,
    ItemIsAuction,
    UserNotFound,
    CannotPurchaseOwnItem,
    DatabaseError(String),
    WebSocketError(String),
    UnexpectedError(String),
}

/// The message shown for each purchase error.
pub open spec fn purchase_error_text(e: PurchaseServiceError) -> Seq<char> {
    match e {
        PurchaseServiceError::ItemNotFound => "Item not found"@,
        PurchaseServiceError::ItemNotAvailable => "Item is not available for purchase"@,
        PurchaseServiceError::ItemAlreadySold => "Item has already been sold"@,
        PurchaseServiceError::ItemIsAuction => "This item is an auction, use bidding instead"@,
        PurchaseServiceError::UserNotFound => "User not found"@,
        PurchaseServiceError::CannotPurchaseOwnItem => "Cannot purchase your own item"@,
        PurchaseServiceError::DatabaseError(d) => "Database error: "@ + d@,
        PurchaseServiceError::WebSocketError(d) => "WebSocket error: "@ + d@,
        PurchaseServiceError::UnexpectedError(d) => "Unexpected error: "@ + d@,
    }
}

impl PurchaseServiceError {
    /// The error's message.
    pub fn message(&self) -> (r: String)
        ensures
            r@ == purchase_error_text(*self),
    {
        match self {
            PurchaseServiceError::ItemNotFound => owned("Item not found"),
            PurchaseServiceError::ItemNotAvailable => owned("Item is not available for purchase"),
            PurchaseServiceError::ItemAlreadySold => owned("Item has already been sold"),
            PurchaseServiceError::ItemIsAuction => owned(
                "This item is an auction, use bidding instead",
            ),
            PurchaseServiceError::UserNotFound => owned("User not found"),
            PurchaseServiceError::CannotPurchaseOwnItem => owned("Cannot purchase your own item"),
            PurchaseServiceError::DatabaseError(d) => {
                let mut m = owned("Database error: ");
                push_str(&mut m, d.as_str());
                m
            },
            PurchaseServiceError::WebSocketError(d) => {
                let mut m = owned("WebSocket error: ");
                push_str(&mut m, d.as_str());
                m
            },
            PurchaseServiceError::UnexpectedError(d) => {
                let mut m = owned("Unexpected error: ");
                push_str(&mut m, d.as_str());
                m
            },
        }
    }
}

/// What a purchase reads of the item being bought.
#[derive(Debug, Clone)]
pub struct PurchasableItem {
    pub item_id: String,
    pub listing_type: String,
    pub name: String,
    pub price: Amount,
    pub buy_price: Option<Amount>,
    pub seller_user_id: Option<u128>,
    pub status: Option<String>,
}

/// A completed purchase. Identifiers are the 128-bit values of UUIDs; the
/// time is in microseconds since the Unix epoch.
#[derive(Debug, Clone)]
pub struct PurchaseInfo {
    pub item_id: String,
    pub buyer_user_id: u128,
    pub seller_user_id: u128,
    pub purchase_price: Amount,
    pub purchased_at: i64,
    pub item_name: String,
}

/// An optional text equal to `t`.
pub open spec fn text_is(o: Option<String>, t: Seq<char>) -> bool {
    o matches Some(s) && s@ == t
}

/// The price `buyer` pays for `item`, or why the purchase is refused: a sold
/// item is sold, an ended one unavailable, nobody buys their own item, a fixed
/// price item sells at its price and an auction only at its buy-now price.
pub open spec fn purchase_outcome(item: PurchasableItem, buyer: u128) -> Result<
    Seq<char>,
    PurchaseServiceError,
> {
    if text_is(item.status, "sold"@) {
        Err(PurchaseServiceError::ItemAlreadySold)
    } else if text_is(item.status, "ended"@) {
        Err(PurchaseServiceError::ItemNotAvailable)
    } else if item.seller_user_id == Some(buyer) {
        Err(PurchaseServiceError::CannotPurchaseOwnItem)
    } else if item.listing_type@ == "fixed_price"@ {
        Ok(item.price@)
    } else if item.listing_type@ == "auction"@ {
        match item.buy_price {
            Some(b) => Ok(b@),
            None => Err(PurchaseServiceError::ItemIsAuction),
        }
    } else {
        Err(PurchaseServiceError::ItemNotAvailable)
    }
}

fn opt_text_is(o: &Option<String>, t: &str) -> (r: bool)
    ensures
        r == text_is(*o, t@),
{
    match o {
        Some(s) => str_eq(s.as_str(), t),
        None => false,
    }
}

/// After a buy-now purchase of an auction, the other bidders are told they
/// lost.
pub open spec fn tells_other_bidders(item: PurchasableItem) -> bool {
    item.listing_type@ == "auction"@ && item.buy_price is Some
}

/// A bidder on an auction that was bought outright, with their highest bid.
#[derive(Debug, Clone)]
pub struct OtherBidder {
    pub bidder_user_id: Option<u128>,
    pub username: String,
    pub final_bid: Option<Amount>,
}

/// The bidders that are told, with their highest bids: those whose identifier
/// and bid are both known, in order.
pub open spec fn bidders_to_tell(rows: Seq<OtherBidder>) -> Seq<(u128, Seq<char>)>
    decreases rows.len(),
{
    if rows.len() == 0 {
        Seq::empty()
    } else {
        let rest = bidders_to_tell(rows.drop_last());
        let last = rows.last();
        match (last.bidder_user_id, last.final_bid) {
            (Some(id), Some(bid)) => rest.push((id, bid@)),
            _ => rest,
        }
    }
}


/// Buying items outright.
pub struct PurchaseService;

impl PurchaseService {
    /// Decides whether `buyer_user_id` may buy `item` and at what price.
    pub fn purchase_price(item: &PurchasableItem, buyer_user_id: u128) -> (r: Result<
        Amount,
        PurchaseServiceError,
    >)
        ensures
            match r {
                Ok(p) => purchase_outcome(*item, buyer_user_id) == Ok::<
                    Seq<char>,
                    PurchaseServiceError,
                >(p@),
                Err(e) => purchase_outcome(*item, buyer_user_id) == Err::<
                    Seq<char>,
                    PurchaseServiceError,
                >(e),
            },
    {
        if opt_text_is(&item.status, "sold") {
            return Err(PurchaseServiceError::ItemAlreadySold);
        }
        if opt_text_is(&item.status, "ended") {
            return Err(PurchaseServiceError::ItemNotAvailable);
        }
        match item.seller_user_id {
            Some(s) => {
                if s == buyer_user_id {
                    return Err(PurchaseServiceError::CannotPurchaseOwnItem);
                }
            },
            None => {},
        }
        if str_eq(item.listing_type.as_str(), "fixed_price") {
            Ok(item.price.clone())
        } else if str_eq(item.listing_type.as_str(), "auction") {
            match &item.buy_price {
                Some(b) => Ok(b.clone()),
                None => Err(PurchaseServiceError::ItemIsAuction),
            }
        } else {
            Err(PurchaseServiceError::ItemNotAvailable)
        }
    }

    /// Whether the purchase of `item` is followed by "auction lost" notices.
    pub fn notifies_other_bidders(item: &PurchasableItem) -> (r: bool)
        ensures
            r == tells_other_bidders(*item),
    {
        str_eq(item.listing_type.as_str(), "auction") && item.buy_price.is_some()
    }

    /// Picks the bidders to tell that the auction was lost.
    pub fn losing_bidders(rows: &Vec<OtherBidder>) -> (r: Vec<(u128, Amount)>)
        ensures
            r@.len() == bidders_to_tell(rows@).len(),
            forall|i: int|
                0 <= i < r@.len() ==> (#[trigger] r@[i]).0 == bidders_to_tell(rows@)[i].0 && r@[i].1@
                    == bidders_to_tell(rows@)[i].1,
    {
        let mut r: Vec<(u128, Amount)> = Vec::new();
        let mut i: usize = 0;
        while i < rows.len()
            invariant
                i <= rows.len(),
                r@.len() == bidders_to_tell(rows@.take(i as int)).len(),
                forall|j: int|
                    0 <= j < r@.len() ==> (#[trigger] r@[j]).0 == bidders_to_tell(rows@.take(i as int))[j].0
                        && r@[j].1@ == bidders_to_tell(rows@.take(i as int))[j].1,
            decreases rows.len() - i,
        {
            assert(rows@.take(i + 1).drop_last() =~= rows@.take(i as int));
            assert(rows@.take(i + 1).last() == rows@[i as int]);
            let row = &rows[i];
            match (&row.bidder_user_id, &row.final_bid) {
                (Some(id), Some(bid)) => {
                    r.push((*id, bid.clone()));
                },
                _ => {},
            }
            i = i + 1;
        }
        assert(rows@.take(rows.len() as int) =~= rows@);
        r
    }

    /// The record of `buyer_user_id` buying `item` at `price`, timed now. An item
    /// without a seller records the nil identifier as its seller.
    pub fn purchase_info(item: &PurchasableItem, buyer_user_id: u128, price: Amount) -> (r:
        PurchaseInfo)
        ensures
            r.item_id == item.item_id,
            r.buyer_user_id == buyer_user_id,
            r.seller_user_id == match item.seller_user_id {
                Some(s) => s,
                None => 0,
            },
            r.purchase_price@ == price@,
            r.item_name == item.name,
    {
        PurchaseInfo {
            item_id: item.item_id.clone(),
            buyer_user_id,
            seller_user_id: match item.seller_user_id {
                Some(s) => s,
                None => 0,
            },
            purchase_price: price,
            purchased_at: now_micros(),
            item_name: item.name.clone(),
        }
    }
}

/// A purchase that goes through never sells an item to its own seller,
/// never sells a sold or ended item, and charges the fixed price of a fixed
/// price item or the buy-now price of an auction.
pub proof fn lemma_purchase_rules(item: PurchasableItem, buyer: u128)
    ensures
        purchase_outcome(item, buyer) matches Ok(price) ==> {
            &&& item.seller_user_id != Some(buyer)
            &&& !text_is(item.status, "sold"@)
            &&& !text_is(item.status, "ended"@)
            &&& (item.listing_type@ == "fixed_price"@ ==> price == item.price@)
            &&& (item.listing_type@ == "auction"@ ==> (item.buy_price matches Some(b) && price
                == b@))
        },
{
    reveal_strlit("fixed_price");
    reveal_strlit("auction");
    assert("fixed_price"@.len() != "auction"@.len());
}


/// Every item that is neither sold nor ended can be bought by anyone but its
/// seller: a fixed price item at its price, and an auction that has a
/// buy-now price at that price, whatever else its status says.
pub proof fn lemma_purchase_complete(item: PurchasableItem, buyer: u128)
    requires
        !text_is(item.status, "sold"@),
        !text_is(item.status, "ended"@),
        item.seller_user_id != Some(buyer),
    ensures
        item.listing_type@ == "fixed_price"@ ==> purchase_outcome(item, buyer) == Ok::<
            Seq<char>,
            PurchaseServiceError,
        >(item.price@),
        item.listing_type@ == "auction"@ && item.buy_price is Some ==> purchase_outcome(item, buyer)
            == Ok::<Seq<char>, PurchaseServiceError>(item.buy_price->0@),
        item.listing_type@ == "auction"@ && item.buy_price is None ==> purchase_outcome(item, buyer)
            == Err::<Seq<char>, PurchaseServiceError>(PurchaseServiceError::ItemIsAuction),
{
    reveal_strlit("fixed_price");
    reveal_strlit("auction");
    assert("fixed_price"@.len() != "auction"@.len());
}


/// The refusals of a purchase, in the order they are checked: a sold item is
/// already sold, an ended one is not available, and a seller cannot buy their
/// own item.
pub proof fn lemma_purchase_refusals(item: PurchasableItem, buyer: u128)
    ensures
        text_is(item.status, "sold"@) ==> purchase_outcome(item, buyer) == Err::<
            Seq<char>,
            PurchaseServiceError,
        >(PurchaseServiceError::ItemAlreadySold),
        !text_is(item.status, "sold"@) && text_is(item.status, "ended"@) ==> purchase_outcome(
            item,
            buyer,
        ) == Err::<Seq<char>, PurchaseServiceError>(PurchaseServiceError::ItemNotAvailable),
        !text_is(item.status, "sold"@) && !text_is(item.status, "ended"@) && item.seller_user_id
            == Some(buyer) ==> purchase_outcome(item, buyer) == Err::<Seq<char>, PurchaseServiceError>(
            PurchaseServiceError::CannotPurchaseOwnItem,
        ),
{
}

} // verus!
