//! Chat rooms and the messages sent in them.
use crate::text::{string_from_chars, trim, trimmed_chars, utf8_len, utf8_len_exceeds};
use vstd::prelude::*;

verus! {

broadcast use vstd::string::group_string_axioms;

/// The longest message accepted, in bytes of UTF-8.
pub const MAX_MESSAGE_BYTES: usize = 1000;

/// A message as a user submits it.
#[derive(Debug)]
pub struct NewMessage {
    pub content: String,
}

/// A message whose content has been trimmed and checked.
#[derive(Debug)]
pub struct ValidatedMessage {
    pub content: String,
}

impl NewMessage {
    /// Trims the content and accepts it when it is neither empty nor longer
    /// than 1000 bytes.
    pub fn parse(self) -> (r: Result<ValidatedMessage, String>)
        ensures
            trim(self.content@).len() == 0 ==> (r matches Err(e) && e@
                == "Message content cannot be empty"@),
            trim(self.content@).len() > 0 && utf8_len(trim(self.content@)) > MAX_MESSAGE_BYTES
                ==> (r matches Err(e) && e@ == "Message content cannot exceed 1000 characters"@),
            trim(self.content@).len() > 0 && utf8_len(trim(self.content@)) <= MAX_MESSAGE_BYTES
                ==> (r matches Ok(v) && v.content@ == trim(self.content@)),
    {
        let cs = trimmed_chars(self.content.as_str());
        if cs.len() == 0 {
            return Err("Message content cannot be empty".to_string());
        }
        if utf8_len_exceeds(&cs, MAX_MESSAGE_BYTES) {
            return Err("Message content cannot exceed 1000 characters".to_string());
        }
        Ok(ValidatedMessage { content: string_from_chars(&cs) })
    }
}

/// A conversation between two users; `user1_id` is the smaller identifier.
/// Identifiers are UUIDs as 128-bit integers; times are microseconds since
/// the Unix epoch.
#[derive(Debug, Clone)]
pub struct ChatRoom {
    pub id: u128,
    pub user1_id: u128,
    pub user2_id: u128,
    pub created_at: Option<i64>,
    pub updated_at: Option<i64>,
}

impl ChatRoom {
    /// The participant who is not `current_user_id` (the first participant
    /// when `current_user_id` is not the first).
    pub fn get_other_user_id(&self, current_user_id: u128) -> (r: u128)
        ensures
            r == if self.user1_id == current_user_id {
                self.user2_id
            } else {
                self.user1_id
            },
    {
        if self.user1_id == current_user_id {
            self.user2_id
        } else {
            self.user1_id
        }
    }

    /// Whether `user_id` takes part in the room.
    pub fn contains_user(&self, user_id: u128) -> (b: bool)
        ensures
            b == (self.user1_id == user_id || self.user2_id == user_id),
    {
        self.user1_id == user_id || self.user2_id == user_id
    }
}

/// Each participant of a room is the other one's other participant.
pub proof fn lemma_other_of_other(room: ChatRoom, user_id: u128)
    requires
        room.user1_id != room.user2_id,
        room.user1_id == user_id || room.user2_id == user_id,
    ensures
        ({
            let other = if room.user1_id == user_id {
                room.user2_id
            } else {
                room.user1_id
            };
            &&& other != user_id
            &&& (room.user1_id == other || room.user2_id == other)
            &&& (if room.user1_id == other {
                room.user2_id
            } else {
                room.user1_id
            }) == user_id
        }),
{
}

} // verus!
