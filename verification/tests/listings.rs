use backend::decimal::Amount;
use backend::domain::bid::NewBid;
use backend::domain::item::NewItem;
use backend::routes::bids::{accept_bid_request, bid_follow_up, BidError, BidRequest};
use backend::routes::items::{
    may_update_item, purchase_response, select_items, ItemError, ItemRequest, ItemsQuery,
    ListedItem, PurchaseError,
};
use backend::services::purchase_service::{PurchaseInfo, PurchaseServiceError};

fn amount(s: &str) -> Amount {
    Amount::parse(s.to_string()).expect("a decimal amount")
}

const DAY: i64 = 86_400_000_000;

fn auction_item() -> NewItem {
    NewItem {
        item_id: "ITEM123".to_string(),
        listing_type: "auction".to_string(),
        name: "Test Item".to_string(),
        price: amount("10.00"),
        currently: Some(amount("10.00")),
        buy_price: Some(amount("100.00")),
        number_of_bids: Some(0),
        location: Some("Test City".to_string()),
        country: Some("Test Country".to_string()),
        started: 0,
        ends: Some(DAY),
        description: Some("A test item for auction".to_string()),
        seller_user_id: 7,
        seller_rating: None,
        condition: None,
        shipping_cost: amount("0"),
        categories: vec!["Electronics".to_string(), "Books".to_string()],
    }
}

fn fixed_item() -> NewItem {
    let mut item = auction_item();
    item.listing_type = "fixed_price".to_string();
    item.currently = None;
    item.number_of_bids = None;
    item.ends = None;
    item
}

#[test]
fn amounts_parse_compare_and_format() {
    assert!(Amount::parse("abc".to_string()).is_none());
    let a = amount("15.50");
    assert_eq!(a.as_str(), "15.50");
    assert_eq!(a.compare(&amount("15.5")), 0);
    assert_eq!(a.compare(&amount("20")), -1);
    assert_eq!(amount("20").compare(&a), 1);
    assert_eq!(a.compare_with("not a number"), None);
    assert_eq!(a.format_currency(), "$15.50");
    assert_eq!(amount("1500").format_currency(), "$1500.00");
    assert_eq!(Amount::zero().as_str(), "0");
}

#[test]
fn valid_listings_pass() {
    assert_eq!(auction_item().validate(), Ok(()));
    assert_eq!(fixed_item().validate(), Ok(()));
}

#[test]
fn listing_rules_report_the_first_broken_rule() {
    let mut item = auction_item();
    item.item_id = "  ".to_string();
    assert_eq!(item.validate(), Err("Item ID cannot be empty".to_string()));

    let mut item = auction_item();
    item.name = "".to_string();
    assert_eq!(item.validate(), Err("Item name cannot be empty".to_string()));

    let mut item = auction_item();
    item.price = amount("0");
    assert_eq!(item.validate(), Err("Price must be greater than zero".to_string()));

    let mut item = auction_item();
    item.ends = None;
    assert_eq!(item.validate(), Err("Auction items must have an end date".to_string()));

    let mut item = auction_item();
    item.currently = None;
    assert_eq!(item.validate(), Err("Auction items must have a current price".to_string()));

    let mut item = auction_item();
    item.currently = Some(amount("9.99"));
    assert_eq!(
        item.validate(),
        Err("Current price cannot be less than starting price".to_string())
    );

    let mut item = fixed_item();
    item.ends = Some(DAY);
    assert_eq!(
        item.validate(),
        Err("Fixed price items should not have 'ends', 'currently', or 'number_of_bids' fields"
            .to_string())
    );

    let mut item = auction_item();
    item.listing_type = "raffle".to_string();
    assert_eq!(item.validate(), Err("Invalid listing type specified".to_string()));

    let mut item = auction_item();
    item.shipping_cost = amount("-1");
    assert_eq!(item.validate(), Err("Shipping cost cannot be negative".to_string()));

    let mut item = auction_item();
    item.categories.clear();
    assert_eq!(item.validate(), Err("Item must have at least one category".to_string()));
}

#[test]
fn create_item_with_invalid_dates_is_refused() {
    let mut item = auction_item();
    item.started = DAY;
    item.ends = Some(0);
    assert_eq!(item.validate(), Err("Start time must be before end time".to_string()));
}

fn request() -> ItemRequest {
    ItemRequest {
        item_id: None,
        listing_type: "fixed_price".to_string(),
        name: "Guitar".to_string(),
        price: amount("280.00"),
        currently: None,
        buy_price: Some(amount("280.00")),
        number_of_bids: None,
        location: Some("Manolates".to_string()),
        country: Some("Greece".to_string()),
        started: 0,
        ends: None,
        description: None,
        seller_user_id: 3,
        condition: None,
        shipping_cost: None,
        categories: vec!["Musical Instruments".to_string()],
    }
}

#[test]
fn requests_become_listings_with_defaults() {
    let item = request()
        .into_new_item_with_seller_rating(Some(amount("97")))
        .expect("a valid request");
    assert_eq!(item.item_id.len(), 36);
    assert_eq!(item.shipping_cost.as_str(), "0");
    assert_eq!(item.seller_rating.as_ref().map(|r| r.as_str()), Some("97"));

    let mut req = request();
    req.item_id = Some("MINE".to_string());
    req.shipping_cost = Some(amount("5.00"));
    let item = req.into_new_item_with_seller_rating(None).unwrap();
    assert_eq!(item.item_id, "MINE");
    assert_eq!(item.shipping_cost.as_str(), "5.00");

    let mut req = request();
    req.categories = Vec::new();
    assert_eq!(
        req.into_new_item_with_seller_rating(None).err(),
        Some("Item must have at least one category".to_string())
    );
}

#[test]
fn only_the_seller_or_an_admin_updates_a_listing() {
    assert_eq!(may_update_item(1, Some(Some(1)), "user"), Ok(()));
    assert_eq!(may_update_item(2, Some(Some(1)), "admin"), Ok(()));
    assert_eq!(may_update_item(2, Some(Some(1)), "user"), Err(ItemError::ValidationError));
    assert_eq!(may_update_item(2, Some(None), "admin"), Err(ItemError::NotFound));
    assert_eq!(may_update_item(2, None, "admin"), Err(ItemError::NotFound));
    assert_eq!(ItemError::NotFound.status_code(), 404);
    assert_eq!(ItemError::CategoriesNotFound.message(), "One or more categories not found");
}

fn listed(id: &str, kind: &str, price: &str, currently: Option<&str>, ends: Option<i64>) -> ListedItem {
    ListedItem {
        item_id: id.to_string(),
        listing_type: kind.to_string(),
        name: format!("Item {}", id),
        price: amount(price),
        currently: currently.map(amount),
        buy_price: None,
        number_of_bids: None,
        location: Some("Athens, Attica".to_string()),
        country: Some("Greece".to_string()),
        started: 0,
        ends,
        description: Some("Vintage camera in box".to_string()),
        seller_user_id: 1,
        seller_rating: None,
        condition: None,
        shipping_cost: amount("0"),
        categories: vec!["Electronics".to_string()],
        status: None,
    }
}

fn catalogue() -> Vec<ListedItem> {
    vec![
        listed("a", "auction", "10", Some("50"), Some(3 * DAY)),
        listed("b", "fixed_price", "30", None, None),
        listed("c", "auction", "20", None, Some(DAY)),
        listed("d", "fixed_price", "5", None, None),
    ]
}

fn query() -> ItemsQuery {
    ItemsQuery {
        category: None,
        q: None,
        min_price: None,
        max_price: None,
        sort_by: None,
        listing_type: None,
        location: None,
    }
}

fn ids(items: &[ListedItem]) -> Vec<String> {
    items.iter().map(|i| i.item_id.clone()).collect()
}

#[test]
fn search_keeps_stored_order_without_sorting() {
    let all = select_items(catalogue(), &query(), &vec![true; 4]);
    assert_eq!(ids(&all), vec!["a", "b", "c", "d"]);
    let mut q = query();
    q.sort_by = Some("newest".to_string());
    assert_eq!(ids(&select_items(catalogue(), &q, &vec![true; 4])), vec!["a", "b", "c", "d"]);
}

#[test]
fn search_filters_by_type_category_text_city_and_price() {
    let mut q = query();
    q.listing_type = Some("auction".to_string());
    assert_eq!(ids(&select_items(catalogue(), &q, &vec![true; 4])), vec!["a", "c"]);

    let mut q = query();
    q.category = Some(4);
    assert_eq!(
        ids(&select_items(catalogue(), &q, &vec![true, false, false, true])),
        vec!["a", "d"]
    );

    let mut q = query();
    q.q = Some("ITEM B".to_string());
    assert_eq!(ids(&select_items(catalogue(), &q, &vec![true; 4])), vec!["b"]);
    q.q = Some("CAMERA".to_string());
    assert_eq!(ids(&select_items(catalogue(), &q, &vec![true; 4])).len(), 4);
    q.q = Some("   ".to_string());
    assert_eq!(ids(&select_items(catalogue(), &q, &vec![true; 4])).len(), 4);

    let mut q = query();
    q.location = Some("athens".to_string());
    assert_eq!(ids(&select_items(catalogue(), &q, &vec![true; 4])).len(), 4);
    q.location = Some("Attica".to_string());
    assert!(select_items(catalogue(), &q, &vec![true; 4]).is_empty());

    // an auction is priced at its current price where it has one
    let mut q = query();
    q.min_price = Some("25".to_string());
    assert_eq!(ids(&select_items(catalogue(), &q, &vec![true; 4])), vec!["a", "b"]);
    q.min_price = Some("not a number".to_string());
    assert_eq!(ids(&select_items(catalogue(), &q, &vec![true; 4])).len(), 4);
    let mut q = query();
    q.max_price = Some("20".to_string());
    assert_eq!(ids(&select_items(catalogue(), &q, &vec![true; 4])), vec!["c", "d"]);
}

#[test]
fn search_sorts_by_price_and_by_end() {
    let mut q = query();
    q.sort_by = Some("price_asc".to_string());
    assert_eq!(ids(&select_items(catalogue(), &q, &vec![true; 4])), vec!["d", "c", "b", "a"]);
    q.sort_by = Some("price_desc".to_string());
    assert_eq!(ids(&select_items(catalogue(), &q, &vec![true; 4])), vec!["a", "b", "c", "d"]);
    q.sort_by = Some("ending_soon".to_string());
    assert_eq!(ids(&select_items(catalogue(), &q, &vec![true; 4])), vec!["c", "a", "b", "d"]);
}

#[test]
fn sorting_keeps_the_order_of_listings_that_tie() {
    let tied = || vec![
        listed("p", "fixed_price", "7.50", None, None),
        listed("q", "auction", "1", Some("7.5"), Some(DAY)),
        listed("r", "fixed_price", "2", None, Some(DAY)),
        listed("s", "fixed_price", "7.500", None, None),
    ];
    let mut q = query();
    q.sort_by = Some("price_asc".to_string());
    assert_eq!(ids(&select_items(tied(), &q, &vec![true; 4])), vec!["r", "p", "q", "s"]);
    q.sort_by = Some("price_desc".to_string());
    assert_eq!(ids(&select_items(tied(), &q, &vec![true; 4])), vec!["p", "q", "s", "r"]);
    q.sort_by = Some("ending_soon".to_string());
    assert_eq!(ids(&select_items(tied(), &q, &vec![true; 4])), vec!["q", "r", "p", "s"]);
}

#[test]
fn bids_must_name_an_item_and_offer_more_than_zero() {
    let bid = NewBid {
        item_id: "ITEM".to_string(),
        bidder_user_id: 2,
        bidder_rating: None,
        time: 0,
        amount: amount("15.00"),
        bidder_location: None,
        bidder_country: None,
    };
    assert_eq!(bid.validate(), Ok(()));
    let mut zero = bid.clone();
    zero.amount = amount("0.00");
    assert_eq!(zero.validate(), Err("Bid amount must be greater than zero".to_string()));
    let mut blank = bid.clone();
    blank.item_id = " ".to_string();
    assert_eq!(blank.validate(), Err("Item ID cannot be empty".to_string()));
}

fn bid_request(bidder: u128, value: &str) -> BidRequest {
    BidRequest {
        bidder_user_id: bidder,
        bidder_rating: Some(100),
        time: 0,
        amount: amount(value),
        bidder_location: Some("Bidder City".to_string()),
        bidder_country: Some("Bidder Country".to_string()),
    }
}

#[test]
fn bid_requests_are_checked_before_bidding() {
    let bid = accept_bid_request(2, bid_request(2, "15"), "BIDITEM1".to_string()).unwrap();
    assert_eq!(bid.item_id, "BIDITEM1");
    assert_eq!(bid.amount.as_str(), "15");
    assert_eq!(
        accept_bid_request(3, bid_request(2, "15"), "BIDITEM1".to_string()).err(),
        Some(BidError::ValidationError)
    );
    assert_eq!(
        accept_bid_request(2, bid_request(2, "-1"), "BIDITEM1".to_string()).err(),
        Some(BidError::ValidationError)
    );
    assert_eq!(BidError::BidTooLow.message(), "Bid amount must be higher than current price");
    assert_eq!(BidError::BuyItNowTriggered.status_code(), 200);
}

#[test]
fn a_placed_bid_is_answered_and_announced() {
    let plain = bid_follow_up(false, false);
    assert_eq!((plain.status, plain.notify_outbid, plain.announce_auction_end), (201, true, false));
    let buy_now = bid_follow_up(true, true);
    assert_eq!((buy_now.status, buy_now.notify_outbid, buy_now.announce_auction_end), (200, false, true));
}

#[test]
fn purchases_are_answered_with_their_outcome() {
    let info = PurchaseInfo {
        item_id: "X".to_string(),
        buyer_user_id: 2,
        seller_user_id: 1,
        purchase_price: amount("89.99"),
        purchased_at: 0,
        item_name: "Pottery".to_string(),
    };
    let (status, body) = purchase_response(Ok(info));
    assert_eq!(status, 200);
    assert!(body.success);
    assert_eq!(body.message, "Successfully purchased item 'Pottery'");
    let (status, body) = purchase_response(Err(PurchaseServiceError::ItemAlreadySold));
    assert_eq!((status, body.success, body.message.as_str()), (409, false, "Item has already been sold"));
    let (status, body) = purchase_response(Err(PurchaseServiceError::DatabaseError("x".to_string())));
    assert_eq!((status, body.message.as_str()), (500, "Purchase failed"));
    assert!(body.purchase_info.is_none());
    assert_eq!(PurchaseError::AlreadySold.status_code(), 409);
}
