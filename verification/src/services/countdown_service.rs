//! Countdown updates for running auctions.
use crate::services::websocket_service::WebSocketService;
use vstd::prelude::*;

verus! {

/// Whole seconds from `now` until `ends_at` (both in microseconds since the
/// Unix epoch), and zero once the end has passed.
pub open spec fn seconds_left(ends_at: int, now: int) -> int {
    if ends_at > now {
        (ends_at - now) / 1_000_000
    } else {
        0
    }
}


/// Countdowns of running auctions.
pub struct CountdownService;

impl CountdownService {
    /// The seconds left until an auction ends, never negative.
    pub fn seconds_remaining(ends_at: i64, now: i64) -> (r: i64)
        ensures
            r == seconds_left(ends_at as int, now as int),
            r >= 0,
    {
        if ends_at > now {
            let d: i128 = ends_at as i128 - now as i128;
            let s: i128 = d / 1_000_000;
            assert(s <= d);
            s as i64
        } else {
            0
        }
    }

    /// The countdown to send for the auction of `item_id`, which ends at
    /// `ends_at`: the seconds left, when some connection follows the item.
    pub fn countdown_update(ws: &WebSocketService, item_id: u128, ends_at: i64, now: i64) -> (r: Option<
        i64,
    >)
        ensures
            r is Some <==> ws@.subscriber_count(item_id) > 0,
            r matches Some(s) ==> s == seconds_left(ends_at as int, now as int),
    {
        if ws.item_subscriber_count(item_id) > 0 {
            Some(CountdownService::seconds_remaining(ends_at, now))
        } else {
            None
        }
    }
}

} // verus!
