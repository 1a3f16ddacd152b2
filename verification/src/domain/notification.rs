//! Notifications shown to users, and the texts they carry.
use crate::clock::{new_v4_id, now_micros};
use crate::decimal::{currency_text, Amount};
use crate::text::{
    byte_prefix, byte_prefix_chars, char_boundary_at, chars_of, is_char_boundary, owned, push_signed_decimal,
    push_str, signed_decimal_text, str_eq, string_from_chars, utf8_len, utf8_len_exceeds,
};
use vstd::prelude::*;

verus! {

/// What a notification is about.
#[derive(Debug, Clone, Copy, PartialEq, Eq, Structural)]
pub enum NotificationType {
    ItemSold,
    NewBid,
    AuctionEnded,
    BidOutbid,
    AuctionWon,
    AuctionLost,
    NewChatRoom,
    NewMessage,
}

impl NotificationType {
    /// The name under which the type is stored and sent.
    pub fn as_str(&self) -> (r: &'static str)
        ensures
            r@ == notification_type_name(*self),
    {
        match self {
            NotificationType::ItemSold => "item_sold",
            NotificationType::NewBid => "new_bid",
            NotificationType::AuctionEnded => "auction_ended",
            NotificationType::BidOutbid => "bid_outbid",
            NotificationType::AuctionWon => "auction_won",
            NotificationType::AuctionLost => "auction_lost",
            NotificationType::NewChatRoom => "new_chat_room",
            NotificationType::NewMessage => "new_message",
        }
    }
}

/// The JSON text of a notification type: its name in double quotes, as it is
/// stored and sent.
pub open spec fn notification_type_json(t: NotificationType) -> Seq<char> {
    seq!['"'] + notification_type_name(t) + seq!['"']
}

impl NotificationType {
    /// The JSON text of the type.
    pub fn to_json_text(&self) -> (r: String)
        ensures
            r@ == notification_type_json(*self),
    {
        let mut s = String::new();
        crate::text::push_char(&mut s, '"');
        push_str(&mut s, self.as_str());
        crate::text::push_char(&mut s, '"');
        assert(s@ =~= notification_type_json(*self));
        s
    }

    /// The type whose JSON text is `text`, if any.
    pub fn from_json_text(text: &str) -> (r: Option<NotificationType>)
        ensures
            match r {
                Some(t) => notification_type_json(t) == text@,
                None => forall|t: NotificationType| notification_type_json(t) != text@,
            },
    {
        let mut i: usize = 0;
        let all = [
            NotificationType::ItemSold,
            NotificationType::NewBid,
            NotificationType::AuctionEnded,
            NotificationType::BidOutbid,
            NotificationType::AuctionWon,
            NotificationType::AuctionLost,
            NotificationType::NewChatRoom,
            NotificationType::NewMessage,
        ];
        while i < 8
            invariant
                i <= 8,
                all@ == seq![
                    NotificationType::ItemSold,
                    NotificationType::NewBid,
                    NotificationType::AuctionEnded,
                    NotificationType::BidOutbid,
                    NotificationType::AuctionWon,
                    NotificationType::AuctionLost,
                    NotificationType::NewChatRoom,
                    NotificationType::NewMessage,
                ],
                forall|j: int| 0 <= j < i ==> notification_type_json(#[trigger] all@[j]) != text@,
            decreases 8 - i,
        {
            let t = all[i];
            let json = t.to_json_text();
            if str_eq(json.as_str(), text) {
                return Some(t);
            }
            i = i + 1;
        }
        proof {
            assert forall|t: NotificationType| notification_type_json(t) != text@ by {
                match t {
                    NotificationType::ItemSold => assert(all@[0] == t),
                    NotificationType::NewBid => assert(all@[1] == t),
                    NotificationType::AuctionEnded => assert(all@[2] == t),
                    NotificationType::BidOutbid => assert(all@[3] == t),
                    NotificationType::AuctionWon => assert(all@[4] == t),
                    NotificationType::AuctionLost => assert(all@[5] == t),
                    NotificationType::NewChatRoom => assert(all@[6] == t),
                    NotificationType::NewMessage => assert(all@[7] == t),
                }
            }
        }
        None
    }
}

/// Distinct types have distinct names, so reading back the JSON text of a
/// type gives that type.
pub proof fn lemma_type_json_round_trip(t: NotificationType, u: NotificationType)
    ensures
        notification_type_json(t) == notification_type_json(u) ==> t == u,
{
    if notification_type_json(t) == notification_type_json(u) {
        assert(notification_type_name(t) =~= notification_type_json(t).subrange(
            1,
            notification_type_json(t).len() - 1,
        ));
        assert(notification_type_name(u) =~= notification_type_json(u).subrange(
            1,
            notification_type_json(u).len() - 1,
        ));
        lemma_name_signature(t);
        lemma_name_signature(u);
    }
}

/// The length and first letter of each type's name, which tell the types
/// apart.
spec fn name_signature(t: NotificationType) -> (nat, char) {
    match t {
        NotificationType::ItemSold => (9, 'i'),
        NotificationType::NewBid => (7, 'n'),
        NotificationType::AuctionEnded => (13, 'a'),
        NotificationType::BidOutbid => (10, 'b'),
        NotificationType::AuctionWon => (11, 'a'),
        NotificationType::AuctionLost => (12, 'a'),
        NotificationType::NewChatRoom => (13, 'n'),
        NotificationType::NewMessage => (11, 'n'),
    }
}

proof fn lemma_name_signature(t: NotificationType)
    ensures
        notification_type_name(t).len() == name_signature(t).0,
        notification_type_name(t)[0] == name_signature(t).1,
{
    reveal_strlit("item_sold");
    reveal_strlit("new_bid");
    reveal_strlit("auction_ended");
    reveal_strlit("bid_outbid");
    reveal_strlit("auction_won");
    reveal_strlit("auction_lost");
    reveal_strlit("new_chat_room");
    reveal_strlit("new_message");
}

/// The stored name of each notification type.
pub open spec fn notification_type_name(t: NotificationType) -> Seq<char> {
    match t {
        NotificationType::ItemSold => "item_sold"@,
        NotificationType::NewBid => "new_bid"@,
        NotificationType::AuctionEnded => "auction_ended"@,
        NotificationType::BidOutbid => "bid_outbid"@,
        NotificationType::AuctionWon => "auction_won"@,
        NotificationType::AuctionLost => "auction_lost"@,
        NotificationType::NewChatRoom => "new_chat_room"@,
        NotificationType::NewMessage => "new_message"@,
    }
}

/// A notification for one user. Identifiers are the 128-bit values of UUIDs
/// and times are microseconds since the Unix epoch.
#[derive(Debug, Clone)]
pub struct Notification {
    pub id: u128,
    pub user_id: u128,
    pub notification_type: NotificationType,
    pub title: String,
    pub message: String,
    pub item_id: Option<String>,
    pub related_user_id: Option<u128>,
    pub amount: Option<Amount>,
    pub is_read: bool,
    pub created_at: i64,
    pub read_at: Option<i64>,
}

/// The fields that every new notification shares: unread, never read.
pub open spec fn is_fresh(n: Notification) -> bool {
    !n.is_read && n.read_at is None
}

/// The text of a seller's "item sold" notification.
pub open spec fn item_sold_message(item_name: Seq<char>, buyer: Seq<char>, amount: Seq<char>) -> Seq<char> {
    "Your item '"@ + item_name + "' has been sold to "@ + buyer + " for "@ + currency_text(amount)
}

/// The text of a seller's "new bid" notification.
pub open spec fn bid_received_message(
    bidder: Seq<char>,
    amount: Seq<char>,
    item_name: Seq<char>,
    total_bids: int,
) -> Seq<char> {
    bidder + " placed a bid of "@ + currency_text(amount) + " on your item '"@ + item_name
        + "' (Total bids: "@ + signed_decimal_text(total_bids) + ")"@
}

/// The text of a seller's "auction ended" notification.
pub open spec fn auction_ended_seller_message(
    item_name: Seq<char>,
    final_amount: Seq<char>,
    winner: Option<Seq<char>>,
    total_bids: int,
) -> Seq<char> {
    match winner {
        Some(w) => "Your auction for '"@ + item_name + "' has ended! Sold to "@ + w + " for "@
            + currency_text(final_amount) + " ("@ + signed_decimal_text(total_bids)
            + " total bids)"@,
        None => "Your auction for '"@ + item_name + "' has ended with no winner ("@
            + signed_decimal_text(total_bids) + " total bids)"@,
    }
}

/// The text of an "outbid" notification.
pub open spec fn outbid_message(
    their_bid: Seq<char>,
    item_name: Seq<char>,
    outbidder: Seq<char>,
    new_bid: Seq<char>,
) -> Seq<char> {
    "Your bid of "@ + currency_text(their_bid) + " on '"@ + item_name + "' has been outbid by "@
        + outbidder + " with a bid of "@ + currency_text(new_bid)
}

/// The text of an "auction won" notification.
pub open spec fn auction_won_message(item_name: Seq<char>, winning_bid: Seq<char>) -> Seq<char> {
    "Congratulations! You won the auction for '"@ + item_name + "' with your bid of "@
        + currency_text(winning_bid)
}

/// The text of an "auction lost" notification.
pub open spec fn auction_lost_message(
    item_name: Seq<char>,
    their_final_bid: Seq<char>,
    winning_bid: Seq<char>,
) -> Seq<char> {
    "You didn't win the auction for '"@ + item_name + "'. Your final bid was "@ + currency_text(
        their_final_bid,
    ) + ", but another user won with "@ + currency_text(winning_bid)
}

/// A message preview: the first 50 bytes and an ellipsis when the message
/// takes more than 50 bytes, else the whole message.
pub open spec fn message_preview(m: Seq<char>) -> Seq<char> {
    if utf8_len(m) > 50 {
        byte_prefix(m, 50) + "..."@
    } else {
        m
    }
}

/// A message can be previewed unless it is longer than 50 bytes and byte 50
/// falls inside a character.
pub open spec fn can_preview(m: Seq<char>) -> bool {
    utf8_len(m) <= 50 || is_char_boundary(m, 50)
}

/// Whether `text` can be previewed: a longer text must not have byte 50 inside
/// a character.
pub fn can_preview_text(text: &str) -> (r: bool)
    ensures
        r == can_preview(text@),
{
    let cs = chars_of(text);
    !utf8_len_exceeds(&cs, 50) || char_boundary_at(&cs, 50)
}

impl Notification {
    /// Tells a seller that `buyer_username` bought the item for `amount`.
    pub fn new_item_sold(
        seller_id: u128,
        item_id: String,
        buyer_username: &str,
        amount: Amount,
        item_name: &str,
    ) -> (n: Notification)
        ensures
            n.user_id == seller_id,
            n.notification_type == NotificationType::ItemSold,
            n.title@ == "Item Sold!"@,
            n.message@ == item_sold_message(item_name@, buyer_username@, amount@),
            n.item_id == Some(item_id),
            n.related_user_id is None,
            n.amount matches Some(a) && a@ == amount@,
            is_fresh(n),
    {
        let mut message = owned("Your item '");
        push_str(&mut message, item_name);
        push_str(&mut message, "' has been sold to ");
        push_str(&mut message, buyer_username);
        push_str(&mut message, " for ");
        push_str(&mut message, amount.format_currency().as_str());
        Notification {
            id: new_v4_id(),
            user_id: seller_id,
            notification_type: NotificationType::ItemSold,
            title: owned("Item Sold!"),
            message,
            item_id: Some(item_id),
            related_user_id: None,
            amount: Some(amount),
            is_read: false,
            created_at: now_micros(),
            read_at: None,
        }
    }

    /// Tells a seller of a new bid on the item, with the number of bids.
    pub fn new_bid_received(
        seller_id: u128,
        item_id: String,
        bidder_username: &str,
        bid_amount: Amount,
        item_name: &str,
        total_bids: i32,
    ) -> (n: Notification)
        ensures
            n.user_id == seller_id,
            n.notification_type == NotificationType::NewBid,
            n.title@ == "New Bid Received!"@,
            n.message@ == bid_received_message(
                bidder_username@,
                bid_amount@,
                item_name@,
                total_bids as int,
            ),
            n.item_id == Some(item_id),
            n.related_user_id is None,
            n.amount matches Some(a) && a@ == bid_amount@,
            is_fresh(n),
    {
        let mut message = owned(bidder_username);
        push_str(&mut message, " placed a bid of ");
        push_str(&mut message, bid_amount.format_currency().as_str());
        push_str(&mut message, " on your item '");
        push_str(&mut message, item_name);
        push_str(&mut message, "' (Total bids: ");
        push_signed_decimal(&mut message, total_bids as i64);
        push_str(&mut message, ")");
        Notification {
            id: new_v4_id(),
            user_id: seller_id,
            notification_type: NotificationType::NewBid,
            title: owned("New Bid Received!"),
            message,
            item_id: Some(item_id),
            related_user_id: None,
            amount: Some(bid_amount),
            is_read: false,
            created_at: now_micros(),
            read_at: None,
        }
    }

    /// Tells a seller that the auction ended, sold or not.
    pub fn new_auction_ended_seller(
        seller_id: u128,
        item_id: String,
        item_name: &str,
        final_amount: Amount,
        winner_username: Option<&str>,
        total_bids: i32,
    ) -> (n: Notification)
        ensures
            n.user_id == seller_id,
            n.notification_type == NotificationType::AuctionEnded,
            n.title@ == "Auction Ended"@,
            n.message@ == auction_ended_seller_message(
                item_name@,
                final_amount@,
                match winner_username {
                    Some(w) => Some(w@),
                    None => None,
                },
                total_bids as int,
            ),
            n.item_id == Some(item_id),
            n.related_user_id is None,
            n.amount matches Some(a) && a@ == final_amount@,
            is_fresh(n),
    {
        let mut message = owned("Your auction for '");
        push_str(&mut message, item_name);
        match winner_username {
            Some(winner) => {
                push_str(&mut message, "' has ended! Sold to ");
                push_str(&mut message, winner);
                push_str(&mut message, " for ");
                push_str(&mut message, final_amount.format_currency().as_str());
                push_str(&mut message, " (");
            },
            None => {
                push_str(&mut message, "' has ended with no winner (");
            },
        }
        push_signed_decimal(&mut message, total_bids as i64);
        push_str(&mut message, " total bids)");
        Notification {
            id: new_v4_id(),
            user_id: seller_id,
            notification_type: NotificationType::AuctionEnded,
            title: owned("Auction Ended"),
            message,
            item_id: Some(item_id),
            related_user_id: None,
            amount: Some(final_amount),
            is_read: false,
            created_at: now_micros(),
            read_at: None,
        }
    }

    /// Tells a bidder that `outbidder_username` bid more.
    pub fn new_bid_outbid(
        bidder_id: u128,
        item_id: String,
        item_name: &str,
        their_bid: Amount,
        new_bid: Amount,
        outbidder_username: &str,
    ) -> (n: Notification)
        ensures
            n.user_id == bidder_id,
            n.notification_type == NotificationType::BidOutbid,
            n.title@ == "You've Been Outbid!"@,
            n.message@ == outbid_message(
                their_bid@,
                item_name@,
                outbidder_username@,
                new_bid@,
            ),
            n.item_id == Some(item_id),
            n.related_user_id is None,
            n.amount matches Some(a) && a@ == new_bid@,
            is_fresh(n),
    {
        let mut message = owned("Your bid of ");
        push_str(&mut message, their_bid.format_currency().as_str());
        push_str(&mut message, " on '");
        push_str(&mut message, item_name);
        push_str(&mut message, "' has been outbid by ");
        push_str(&mut message, outbidder_username);
        push_str(&mut message, " with a bid of ");
        push_str(&mut message, new_bid.format_currency().as_str());
        Notification {
            id: new_v4_id(),
            user_id: bidder_id,
            notification_type: NotificationType::BidOutbid,
            title: owned("You've Been Outbid!"),
            message,
            item_id: Some(item_id),
            related_user_id: None,
            amount: Some(new_bid),
            is_read: false,
            created_at: now_micros(),
            read_at: None,
        }
    }

    /// Tells the winner of an auction that they won.
    pub fn new_auction_won(
        winner_id: u128,
        item_id: String,
        item_name: &str,
        winning_bid: Amount,
    ) -> (n: Notification)
        ensures
            n.user_id == winner_id,
            n.notification_type == NotificationType::AuctionWon,
            n.title@ == "Auction Won!"@,
            n.message@ == auction_won_message(item_name@, winning_bid@),
            n.item_id == Some(item_id),
            n.related_user_id is None,
            n.amount matches Some(a) && a@ == winning_bid@,
            is_fresh(n),
    {
        let mut message = owned("Congratulations! You won the auction for '");
        push_str(&mut message, item_name);
        push_str(&mut message, "' with your bid of ");
        push_str(&mut message, winning_bid.format_currency().as_str());
        Notification {
            id: new_v4_id(),
            user_id: winner_id,
            notification_type: NotificationType::AuctionWon,
            title: owned("Auction Won!"),
            message,
            item_id: Some(item_id),
            related_user_id: None,
            amount: Some(winning_bid),
            is_read: false,
            created_at: now_micros(),
            read_at: None,
        }
    }

    /// Tells a bidder that someone else won the auction.
    pub fn new_auction_lost(
        bidder_id: u128,
        item_id: String,
        item_name: &str,
        their_final_bid: Amount,
        winning_bid: Amount,
        _winner_username: &str,
    ) -> (n: Notification)
        ensures
            n.user_id == bidder_id,
            n.notification_type == NotificationType::AuctionLost,
            n.title@ == "Auction Lost"@,
            n.message@ == auction_lost_message(item_name@, their_final_bid@, winning_bid@),
            n.item_id == Some(item_id),
            n.related_user_id is None,
            n.amount matches Some(a) && a@ == winning_bid@,
            is_fresh(n),
    {
        let mut message = owned("You didn't win the auction for '");
        push_str(&mut message, item_name);
        push_str(&mut message, "'. Your final bid was ");
        push_str(&mut message, their_final_bid.format_currency().as_str());
        push_str(&mut message, ", but another user won with ");
        push_str(&mut message, winning_bid.format_currency().as_str());
        Notification {
            id: new_v4_id(),
            user_id: bidder_id,
            notification_type: NotificationType::AuctionLost,
            title: owned("Auction Lost"),
            message,
            item_id: Some(item_id),
            related_user_id: None,
            amount: Some(winning_bid),
            is_read: false,
            created_at: now_micros(),
            read_at: None,
        }
    }

    /// Tells a user that `initiator_username` opened a conversation with them.
    pub fn new_chat_room(
        recipient_id: u128,
        initiator_username: &str,
        initiator_id: u128,
        _chat_room_id: u128,
    ) -> (n: Notification)
        ensures
            n.user_id == recipient_id,
            n.notification_type == NotificationType::NewChatRoom,
            n.title@ == "New Conversation"@,
            n.message@ == initiator_username@ + " started a conversation with you"@,
            n.item_id is None,
            n.related_user_id == Some(initiator_id),
            n.amount is None,
            is_fresh(n),
    {
        let mut message = owned(initiator_username);
        push_str(&mut message, " started a conversation with you");
        Notification {
            id: new_v4_id(),
            user_id: recipient_id,
            notification_type: NotificationType::NewChatRoom,
            title: owned("New Conversation"),
            message,
            item_id: None,
            related_user_id: Some(initiator_id),
            amount: None,
            is_read: false,
            created_at: now_micros(),
            read_at: None,
        }
    }

    /// Tells a user of a new message, with a preview of at most 50 bytes.
    pub fn new_message(
        recipient_id: u128,
        sender_username: &str,
        sender_id: u128,
        _chat_room_id: u128,
        message_preview_text: &str,
    ) -> (n: Notification)
        requires
            can_preview(message_preview_text@),
        ensures
            n.user_id == recipient_id,
            n.notification_type == NotificationType::NewMessage,
            n.title@ == "New message from "@ + sender_username@,
            n.message@ == sender_username@ + ": "@ + message_preview(message_preview_text@),
            n.item_id is None,
            n.related_user_id == Some(sender_id),
            n.amount is None,
            is_fresh(n),
    {
        let cs = chars_of(message_preview_text);
        let preview = if utf8_len_exceeds(&cs, 50) {
            let head = byte_prefix_chars(&cs, 50);
            let mut p = string_from_chars(&head);
            push_str(&mut p, "...");
            p
        } else {
            owned(message_preview_text)
        };
        let mut title = owned("New message from ");
        push_str(&mut title, sender_username);
        let mut message = owned(sender_username);
        push_str(&mut message, ": ");
        push_str(&mut message, preview.as_str());
        Notification {
            id: new_v4_id(),
            user_id: recipient_id,
            notification_type: NotificationType::NewMessage,
            title,
            message,
            item_id: None,
            related_user_id: Some(sender_id),
            amount: None,
            is_read: false,
            created_at: now_micros(),
            read_at: None,
        }
    }

    /// Marks the notification read, now.
    pub fn mark_as_read(&mut self)
        ensures
            final(self).is_read,
            final(self).read_at is Some,
            final(self).id == old(self).id,
            final(self).user_id == old(self).user_id,
            final(self).notification_type == old(self).notification_type,
            final(self).title == old(self).title,
            final(self).message == old(self).message,
            final(self).item_id == old(self).item_id,
            final(self).related_user_id == old(self).related_user_id,
            final(self).amount == old(self).amount,
            final(self).created_at == old(self).created_at,
    {
        self.is_read = true;
        self.read_at = Some(now_micros());
    }
}

/// What a user asks to see of their notifications.
#[derive(Debug, Clone, Copy, PartialEq, Eq, Structural)]
pub struct NotificationFilters {
    pub notification_type: Option<NotificationType>,
    pub is_read: Option<bool>,
    pub limit: Option<i64>,
    pub offset: Option<i64>,
}

/// The counts of one notification type.
#[derive(Debug, Clone, Copy, PartialEq, Eq, Structural)]
pub struct NotificationTypeCount {
    pub notification_type: NotificationType,
    pub count: i64,
    pub unread_count: i64,
}

/// A user's notification counts, in all and by type.
#[derive(Debug, Clone)]
pub struct NotificationSummary {
    pub total_count: i64,
    pub unread_count: i64,
    pub notification_types: Vec<NotificationTypeCount>,
}

/// A preview never takes more than 53 bytes: at most 50 of the message and
/// the ellipsis.
pub proof fn lemma_preview_is_short(m: Seq<char>)
    requires
        can_preview(m),
    ensures
        utf8_len(message_preview(m)) <= 53,
{
    if utf8_len(m) > 50 {
        let k = choose|k: int| 0 <= k <= m.len() && #[trigger] utf8_len(m.take(k)) == 50;
        crate::text::lemma_utf8_len_concat(m.take(k), "..."@);
        reveal_strlit("...");
        crate::text::lemma_utf8_len_three_ascii("..."@);
    }
}

} // verus!
