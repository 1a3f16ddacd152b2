use backend::decimal::Amount;
use backend::domain::notification::{
    can_preview_text, Notification, NotificationFilters, NotificationType,
};
use backend::routes::notifications::{classify_failure, NotificationError, NotificationQuery};
use backend::services::notification_service::{
    NotificationService, NotificationServiceError, TypeCountRow,
};

fn amount(s: &str) -> Amount {
    Amount::parse(s.to_string()).unwrap()
}

#[test]
fn sale_and_bid_notifications_read_as_intended() {
    let n = Notification::new_item_sold(1, "IT".to_string(), "bob", amount("89.99"), "Pottery");
    assert_eq!(n.title, "Item Sold!");
    assert_eq!(n.message, "Your item 'Pottery' has been sold to bob for $89.99");
    assert_eq!(n.notification_type, NotificationType::ItemSold);
    assert!(!n.is_read && n.read_at.is_none());
    assert_eq!(n.item_id.as_deref(), Some("IT"));

    let n = Notification::new_bid_received(1, "IT".to_string(), "jane", amount("15"), "Camera", 3);
    assert_eq!(n.message, "jane placed a bid of $15.00 on your item 'Camera' (Total bids: 3)");

    let n = Notification::new_bid_outbid(2, "IT".to_string(), "Camera", amount("15"), amount("20"), "max");
    assert_eq!(n.title, "You've Been Outbid!");
    assert_eq!(n.message, "Your bid of $15.00 on 'Camera' has been outbid by max with a bid of $20.00");
    assert_eq!(n.amount.as_ref().map(|a| a.as_str()), Some("20"));
}

#[test]
fn auction_notifications_read_as_intended() {
    let n = Notification::new_auction_ended_seller(1, "IT".to_string(), "Camera", amount("120"), Some("max"), 4);
    assert_eq!(n.message, "Your auction for 'Camera' has ended! Sold to max for $120.00 (4 total bids)");
    let n = Notification::new_auction_ended_seller(1, "IT".to_string(), "Camera", amount("10"), None, 0);
    assert_eq!(n.message, "Your auction for 'Camera' has ended with no winner (0 total bids)");
    let n = Notification::new_auction_won(3, "IT".to_string(), "Camera", amount("120"));
    assert_eq!(n.message, "Congratulations! You won the auction for 'Camera' with your bid of $120.00");
    let n = Notification::new_auction_lost(4, "IT".to_string(), "Camera", amount("100"), amount("120"), "max");
    assert_eq!(
        n.message,
        "You didn't win the auction for 'Camera'. Your final bid was $100.00, but another user won with $120.00"
    );
}

#[test]
fn message_notifications_preview_fifty_bytes() {
    let n = Notification::new_chat_room(5, "anna", 6, 7);
    assert_eq!(n.message, "anna started a conversation with you");
    assert_eq!(n.related_user_id, Some(6));

    let short = Notification::new_message(5, "anna", 6, 7, "hello");
    assert_eq!(short.title, "New message from anna");
    assert_eq!(short.message, "anna: hello");

    let long_text = "x".repeat(60);
    let long = Notification::new_message(5, "anna", 6, 7, &long_text);
    assert_eq!(long.message, format!("anna: {}...", "x".repeat(50)));

    // byte 50 inside a two-byte character: no preview can be cut there
    let greek = format!("{}{}", "a".repeat(49), "αβγ");
    assert!(!can_preview_text(&greek));
    assert!(can_preview_text(&"α".repeat(30)));
    let greek_ok = "α".repeat(30);
    let n = Notification::new_message(5, "anna", 6, 7, &greek_ok);
    assert_eq!(n.message, format!("anna: {}...", "α".repeat(25)));
}

#[test]
fn marking_read_keeps_the_notification() {
    let mut n = Notification::new_chat_room(5, "anna", 6, 7);
    let id = n.id;
    n.mark_as_read();
    assert!(n.is_read);
    assert!(n.read_at.is_some());
    assert_eq!(n.id, id);
}

#[test]
fn notification_types_round_trip_through_json_text() {
    let all = [
        NotificationType::ItemSold,
        NotificationType::NewBid,
        NotificationType::AuctionEnded,
        NotificationType::BidOutbid,
        NotificationType::AuctionWon,
        NotificationType::AuctionLost,
        NotificationType::NewChatRoom,
        NotificationType::NewMessage,
    ];
    for t in all {
        let text = t.to_json_text();
        assert_eq!(NotificationType::from_json_text(&text), Some(t));
    }
    assert_eq!(NotificationType::NewChatRoom.to_json_text(), "\"new_chat_room\"");
    assert_eq!(NotificationType::from_json_text("new_bid"), None);
}

#[test]
fn pages_default_to_fifty_and_stop_at_one_hundred() {
    let filters = NotificationFilters { notification_type: None, is_read: None, limit: None, offset: None };
    assert_eq!(NotificationService::page_bounds(&filters), (50, 0));
    let filters = NotificationFilters { notification_type: None, is_read: Some(false), limit: Some(500), offset: Some(20) };
    assert_eq!(NotificationService::page_bounds(&filters), (100, 20));
    let q = NotificationQuery { notification_type: Some(NotificationType::NewBid), is_read: None, limit: Some(7), offset: None };
    let f = q.into_filters();
    assert_eq!(NotificationService::page_bounds(&f), (7, 0));
}

#[test]
fn summaries_read_stored_types() {
    let rows = vec![
        TypeCountRow { notification_type: "\"new_bid\"".to_string(), count: Some(3), unread_count: None },
        TypeCountRow { notification_type: "\"item_sold\"".to_string(), count: None, unread_count: Some(1) },
    ];
    let s = NotificationService::summary_from_rows(Some(4), None, &rows).unwrap();
    assert_eq!((s.total_count, s.unread_count), (4, 0));
    assert_eq!(s.notification_types.len(), 2);
    assert_eq!(s.notification_types[0].notification_type, NotificationType::NewBid);
    assert_eq!((s.notification_types[1].count, s.notification_types[1].unread_count), (0, 1));

    let bad = vec![TypeCountRow { notification_type: "\"spam\"".to_string(), count: None, unread_count: None }];
    assert!(matches!(
        NotificationService::summary_from_rows(None, None, &bad),
        Err(NotificationServiceError::SerializationError(_))
    ));
    assert_eq!(NotificationServiceError::NotFound.message(), "Notification not found");
}

#[test]
fn failures_mentioning_not_found_are_missing_notifications() {
    assert_eq!(classify_failure("Notification not found"), NotificationError::NotFound);
    assert_eq!(
        classify_failure("Failed to mark notification as read"),
        NotificationError::ValidationError
    );
    assert_eq!(NotificationError::Unauthorized.reply(), (403, "Not authorized to access this notification"));
}
