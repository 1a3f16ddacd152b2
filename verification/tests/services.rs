use backend::decimal::Amount;
use backend::domain::message::ChatRoom;
use backend::routes::messages::{message_failure, MessageEndpoint};
use backend::routes::users::{change_user_status, status_change_error_reply, StatusChangeError};
use backend::services::auction_service::{AuctionService, EndingItem};
use backend::services::countdown_service::CountdownService;
use backend::services::message_service::{
    chat_room_participants, check_room_member, find_username, messages_anyone,
    MessageServiceError,
};
use backend::services::purchase_service::{OtherBidder, PurchasableItem, PurchaseService, PurchaseServiceError};
use backend::services::recommendation_service::{number_items, number_users, take_recommendations};
use backend::services::user_service::{StatusAction, UserService, UserServiceError, UserStatus};
use backend::services::user_websocket_service::{
    check_user_subscription, UserWebSocketError, UserWebSocketService,
};
use backend::services::websocket_service::{
    delivers_event, ConnectionInfo, WebSocketRequest, WebSocketResponse, WebSocketService,
};

fn amount(s: &str) -> Amount {
    Amount::parse(s.to_string()).unwrap()
}

#[test]
fn new_accounts_wait_unless_seeded() {
    assert_eq!(UserService::status_for_new_user("o paliatzis"), UserStatus::Confirmed);
    assert_eq!(UserService::status_for_new_user("o psaras"), UserStatus::Confirmed);
    assert_eq!(UserService::status_for_new_user("testuser"), UserStatus::Pending);
    assert_eq!(UserStatus::parse("suspended"), Some(UserStatus::Suspended));
    assert_eq!(UserStatus::parse("banned"), None);
    assert_eq!(UserStatus::Confirmed.as_str(), "confirmed");
}

#[test]
fn verify_user_changes_status_from_pending_to_confirmed() {
    assert_eq!(
        UserService::apply_status_action(Some(UserStatus::Pending), StatusAction::Verify),
        Ok(UserStatus::Confirmed)
    );
}

#[test]
fn verifying_twice_or_a_missing_user_is_not_found() {
    assert_eq!(
        UserService::apply_status_action(Some(UserStatus::Confirmed), StatusAction::Verify),
        Err(UserServiceError::NotFound)
    );
    assert_eq!(
        UserService::apply_status_action(None, StatusAction::Verify),
        Err(UserServiceError::NotFound)
    );
}

#[test]
fn suspending_and_activating_accounts() {
    assert_eq!(
        UserService::apply_status_action(Some(UserStatus::Confirmed), StatusAction::Suspend),
        Ok(UserStatus::Suspended)
    );
    assert_eq!(
        UserService::apply_status_action(Some(UserStatus::Pending), StatusAction::Suspend),
        Ok(UserStatus::Suspended)
    );
    assert_eq!(
        UserService::apply_status_action(Some(UserStatus::Suspended), StatusAction::Suspend),
        Err(UserServiceError::NotFound)
    );
    assert_eq!(
        UserService::apply_status_action(Some(UserStatus::Suspended), StatusAction::Activate),
        Ok(UserStatus::Confirmed)
    );
    assert_eq!(
        change_user_status("user", StatusAction::Verify, Some(UserStatus::Pending)),
        Err(StatusChangeError::AuthenticationError)
    );
    assert_eq!(
        change_user_status("admin", StatusAction::Activate, Some(UserStatus::Confirmed)),
        Err(StatusChangeError::UserNotFound)
    );
    assert_eq!(
        status_change_error_reply(StatusAction::Suspend, StatusChangeError::UserNotFound),
        (404, "User not found or already suspended")
    );
    assert_eq!(UserServiceError::NotFound.message(), "User not found");
}

#[test]
fn conversations_pair_two_different_users() {
    assert_eq!(chat_room_participants(9, 3), Ok((3, 9)));
    assert_eq!(chat_room_participants(3, 9), Ok((3, 9)));
    assert_eq!(chat_room_participants(4, 4), Err(MessageServiceError::SelfMessage));
    let room = ChatRoom { id: 1, user1_id: 3, user2_id: 9, created_at: None, updated_at: None };
    assert_eq!(room.get_other_user_id(3), 9);
    assert_eq!(room.get_other_user_id(9), 3);
    assert_eq!(check_room_member(&room, 9), Ok(()));
    assert_eq!(check_room_member(&room, 5), Err(MessageServiceError::Unauthorized));
    let users = vec![(3u128, "anna".to_string()), (9u128, "bob".to_string())];
    assert_eq!(find_username(&users, 9), Some("bob".to_string()));
    assert_eq!(find_username(&users, 5), None);
    assert!(messages_anyone("admin"));
    assert!(!messages_anyone("Admin"));
    assert_eq!(MessageServiceError::SelfMessage.message(), "Users cannot message themselves");
}

#[test]
fn messaging_failures_are_answered_per_endpoint() {
    assert_eq!(
        message_failure(MessageEndpoint::CreateChatRoom, &MessageServiceError::SelfMessage),
        (400, "You cannot message yourself".to_string())
    );
    assert_eq!(
        message_failure(MessageEndpoint::DeleteMessage, &MessageServiceError::MessageNotFound),
        (404, "Message not found or you don't have permission to delete it".to_string())
    );
    assert_eq!(
        message_failure(MessageEndpoint::GetMessages, &MessageServiceError::Unauthorized),
        (403, "You don't have access to this chat room".to_string())
    );
    assert_eq!(
        message_failure(MessageEndpoint::GetConnections, &MessageServiceError::Unauthorized),
        (500, "Failed to get connections".to_string())
    );
}

#[test]
fn countdowns_count_whole_seconds_and_never_go_negative() {
    assert_eq!(CountdownService::seconds_remaining(5_500_000, 0), 5);
    assert_eq!(CountdownService::seconds_remaining(0, 5_500_000), 0);
    let mut ws = WebSocketService::new();
    assert_eq!(CountdownService::countdown_update(&ws, 42, 10_000_000, 0), None);
    ws.register_connection(ConnectionInfo { user_id: None, username: None, subscribed_items: vec![], connection_id: 1 })
        .unwrap();
    ws.subscribe_to_item(1, 42).unwrap();
    assert_eq!(CountdownService::countdown_update(&ws, 42, 10_000_000, 0), Some(10));
}

#[test]
fn ended_auctions_record_a_winner_only_with_a_bid() {
    let item = EndingItem { seller_user_id: Some(1), number_of_bids: Some(3), currently: Some(amount("25.00")) };
    let won = AuctionService::auction_result("IT", &item, Some(2));
    assert_eq!(won.winner_user_id, Some(2));
    assert_eq!(won.winning_amount.as_ref().map(|a| a.as_str()), Some("25.00"));
    assert_eq!(won.total_bids, 3);
    let unsold = AuctionService::auction_result("IT", &EndingItem { seller_user_id: None, number_of_bids: None, currently: Some(amount("1")) }, None);
    assert!(unsold.winning_amount.is_none());
    assert_eq!((unsold.seller_user_id, unsold.total_bids), (0, 0));
    assert_eq!(AuctionService::count_ended(&vec![true, false, true]), 2);
}

fn purchasable(kind: &str, buy: Option<&str>, status: Option<&str>) -> PurchasableItem {
    PurchasableItem {
        item_id: "X".to_string(),
        listing_type: kind.to_string(),
        name: "Guitar".to_string(),
        price: amount("280.00"),
        buy_price: buy.map(amount),
        seller_user_id: Some(1),
        status: status.map(|s| s.to_string()),
    }
}

#[test]
fn purchases_follow_the_listing_rules() {
    let p = PurchaseService::purchase_price(&purchasable("fixed_price", None, Some("active")), 2).unwrap();
    assert_eq!(p.as_str(), "280.00");
    let p = PurchaseService::purchase_price(&purchasable("auction", Some("350.00"), None), 2).unwrap();
    assert_eq!(p.as_str(), "350.00");
    assert_eq!(
        PurchaseService::purchase_price(&purchasable("auction", None, None), 2).err(),
        Some(PurchaseServiceError::ItemIsAuction)
    );
    assert_eq!(
        PurchaseService::purchase_price(&purchasable("fixed_price", None, Some("sold")), 2).err(),
        Some(PurchaseServiceError::ItemAlreadySold)
    );
    assert_eq!(
        PurchaseService::purchase_price(&purchasable("fixed_price", None, Some("ended")), 2).err(),
        Some(PurchaseServiceError::ItemNotAvailable)
    );
    assert_eq!(
        PurchaseService::purchase_price(&purchasable("fixed_price", None, None), 1).err(),
        Some(PurchaseServiceError::CannotPurchaseOwnItem)
    );
    assert_eq!(
        PurchaseService::purchase_price(&purchasable("lottery", None, None), 2).err(),
        Some(PurchaseServiceError::ItemNotAvailable)
    );
    assert!(PurchaseService::notifies_other_bidders(&purchasable("auction", Some("1"), None)));
    assert!(!PurchaseService::notifies_other_bidders(&purchasable("fixed_price", Some("1"), None)));
    let rows = vec![
        OtherBidder { bidder_user_id: Some(5), username: "a".to_string(), final_bid: Some(amount("10")) },
        OtherBidder { bidder_user_id: None, username: "b".to_string(), final_bid: Some(amount("11")) },
        OtherBidder { bidder_user_id: Some(6), username: "c".to_string(), final_bid: None },
        OtherBidder { bidder_user_id: Some(7), username: "d".to_string(), final_bid: Some(amount("12")) },
    ];
    let losers = PurchaseService::losing_bidders(&rows);
    assert_eq!(losers.len(), 2);
    assert_eq!((losers[0].0, losers[0].1.as_str()), (5, "10"));
    assert_eq!((losers[1].0, losers[1].1.as_str()), (7, "12"));
    let mut item = purchasable("fixed_price", None, None);
    item.seller_user_id = None;
    let info = PurchaseService::purchase_info(&item, 2, amount("280.00"));
    assert_eq!((info.seller_user_id, info.buyer_user_id, info.item_name.as_str()), (0, 2, "Guitar"));
    assert_eq!(
        PurchaseServiceError::WebSocketError("x".to_string()).message(),
        "WebSocket error: x"
    );
}

#[test]
fn item_subscriptions_follow_requests() {
    let mut ws = WebSocketService::new();
    ws.register_connection(ConnectionInfo { user_id: Some(1), username: None, subscribed_items: vec![], connection_id: 10 })
        .unwrap();
    assert_eq!(
        ws.handle_websocket_request(10, WebSocketRequest::Subscribe { item_id: 42 }),
        WebSocketResponse::Subscribed { item_id: 42 }
    );
    assert_eq!(ws.item_subscriber_count(42), 1);
    assert_eq!(
        ws.handle_websocket_request(11, WebSocketRequest::Subscribe { item_id: 42 }),
        WebSocketResponse::Error { message: "Failed to subscribe: ConnectionNotFound".to_string() }
    );
    assert_eq!(ws.handle_websocket_request(10, WebSocketRequest::Ping), WebSocketResponse::Pong);
    assert_eq!(
        ws.handle_websocket_request(10, WebSocketRequest::Unsubscribe { item_id: 42 }),
        WebSocketResponse::Unsubscribed { item_id: 42 }
    );
    assert_eq!(ws.item_subscriber_count(42), 0);
    ws.subscribe_to_item(10, 43).unwrap();
    ws.unregister_connection(10).unwrap();
    assert_eq!(ws.item_subscriber_count(43), 0);
    assert_eq!(ws.connection_count(), 0);
    assert!(delivers_event(Some(1), Some(1)));
    assert!(!delivers_event(Some(2), Some(1)));
    assert!(!delivers_event(None, Some(1)));
    assert!(delivers_event(None, None));
}

#[test]
fn user_event_subscriptions_count_per_user() {
    let mut svc = UserWebSocketService::new();
    svc.subscribe_to_user_events(1, 100, vec!["bids".to_string()]).unwrap();
    svc.subscribe_to_user_events(1, 101, vec!["listings".to_string()]).unwrap();
    svc.subscribe_to_user_events(2, 100, vec![]).unwrap();
    assert_eq!(svc.user_subscriber_count(1), 2);
    assert_eq!(svc.user_subscriber_count(2), 1);
    svc.unsubscribe_user_connection(100).unwrap();
    assert_eq!(svc.user_subscriber_count(1), 1);
    assert_eq!(svc.user_subscriber_count(2), 0);
    assert_eq!(svc.get_user_websocket_stats("admin", 1), Ok(1));
    assert_eq!(svc.get_user_websocket_stats("user", 1), Err(UserWebSocketError::Forbidden));
    assert_eq!(check_user_subscription(1, 1, "user", &vec!["bids".to_string()]), Ok(()));
    assert_eq!(
        check_user_subscription(1, 2, "user", &vec!["bids".to_string()]),
        Err(UserWebSocketError::Forbidden)
    );
    assert_eq!(
        check_user_subscription(1, 2, "admin", &vec!["bids".to_string(), "chat".to_string()]),
        Err(UserWebSocketError::ValidationError)
    );
}

#[test]
fn interaction_matrix_numbers_rows_and_columns_by_first_appearance() {
    let (rows, n) = number_users(&vec![7, 3, 7, 9, 3]);
    assert_eq!((rows, n), (vec![0, 1, 0, 2, 1], 3));
    let items = vec!["b".to_string(), "a".to_string(), "b".to_string()];
    assert_eq!(number_items(&items), (vec![0, 1, 0], 2));
    let cands = vec!["x".to_string(), "y".to_string(), "z".to_string(), "w".to_string()];
    assert_eq!(take_recommendations(&cands, &vec![true, false, true, true], 2), vec!["x", "z"]);
    assert_eq!(take_recommendations(&cands, &vec![false, false, false, true], 5), vec!["w"]);
}

#[test]
fn subscribing_and_unsubscribing_again_restores_counts_and_stats() {
    let mut ws = WebSocketService::new();
    ws.register_connection(ConnectionInfo { user_id: None, username: None, subscribed_items: vec![], connection_id: 1 })
        .unwrap();
    ws.register_connection(ConnectionInfo { user_id: None, username: None, subscribed_items: vec![], connection_id: 2 })
        .unwrap();
    ws.subscribe_to_item(2, 7).unwrap();
    let before = ws.get_stats();
    let count = ws.item_subscriber_count(7);
    ws.subscribe_to_item(1, 7).unwrap();
    assert_eq!(ws.item_subscriber_count(7), count + 1);
    ws.unsubscribe_from_item(1, 7).unwrap();
    assert_eq!(ws.item_subscriber_count(7), count);
    assert_eq!(ws.get_stats(), before);
    // a pair that is not subscribed: nothing changes
    assert_eq!(ws.unsubscribe_from_item(1, 8), Ok(()));
    assert_eq!(ws.unsubscribe_from_item(9, 7), Ok(()));
    assert_eq!(ws.get_stats(), before);
    assert_eq!(ws.item_subscriber_count(7), count);
}
