//! Conversations: who may talk to whom, and in which room.
use crate::domain::message::ChatRoom;
use crate::text::{owned, push_str, str_eq};
use vstd::prelude::*;

verus! {

/// Why a messaging request failed.
#[derive(Debug, Clone, PartialEq, Eq)]
pub enum MessageServiceError {
    DatabaseError(String),
    ChatRoomNotFound,
    MessageNotFound,
    Unauthorized,
    SelfMessage,
    ValidationError(String),
    UnexpectedError(String),
}

/// The message shown for each messaging error.
pub open spec fn message_error_text(e: MessageServiceError) -> Seq<char> {
    match e {
        MessageServiceError::DatabaseError(_) => "Database error"@,
        MessageServiceError::ChatRoomNotFound => "Chat room not found"@,
        MessageServiceError::MessageNotFound => "Message not found"@,
        MessageServiceError::Unauthorized => "Unauthorized access"@,
        MessageServiceError::SelfMessage => "Users cannot message themselves"@,
        MessageServiceError::ValidationError(d) => "Message validation failed: "@ + d@,
        MessageServiceError::UnexpectedError(_) => "Unexpected error"@,
    }
}

impl MessageServiceError {
    /// The error's message.
    pub fn message(&self) -> (r: String)
        ensures
            r@ == message_error_text(*self),
    {
        match self {
            MessageServiceError::DatabaseError(_) => owned("Database error"),
            MessageServiceError::ChatRoomNotFound => owned("Chat room not found"),
            MessageServiceError::MessageNotFound => owned("Message not found"),
            MessageServiceError::Unauthorized => owned("Unauthorized access"),
            MessageServiceError::SelfMessage => owned("Users cannot message themselves"),
            MessageServiceError::ValidationError(d) => {
                let mut m = owned("Message validation failed: ");
                push_str(&mut m, d.as_str());
                m
            },
            MessageServiceError::UnexpectedError(_) => owned("Unexpected error"),
        }
    }
}

/// The two participants of the room between `a` and `b`, the smaller
/// identifier first, or `None` when they are the same user.
pub open spec fn room_pair(a: u128, b: u128) -> Option<(u128, u128)> {
    if a == b {
        None
    } else if a < b {
        Some((a, b))
    } else {
        Some((b, a))
    }
}

/// The participants of a new conversation between `current_user_id` and
/// `other_user_id`, in the order rooms store them; nobody talks to
/// themselves.
pub fn chat_room_participants(current_user_id: u128, other_user_id: u128) -> (r: Result<
    (u128, u128),
    MessageServiceError,
>)
    ensures
        match r {
            Ok(p) => room_pair(current_user_id, other_user_id) == Some(p),
            Err(e) => room_pair(current_user_id, other_user_id) is None && e
                == MessageServiceError::SelfMessage,
        },
{
    if current_user_id == other_user_id {
        return Err(MessageServiceError::SelfMessage);
    }
    if current_user_id < other_user_id {
        Ok((current_user_id, other_user_id))
    } else {
        Ok((other_user_id, current_user_id))
    }
}

/// Whichever of the two starts a conversation, the room is the same one.
pub proof fn lemma_room_pair_symmetric(a: u128, b: u128)
    ensures
        room_pair(a, b) == room_pair(b, a),
        room_pair(a, b) matches Some(p) ==> p.0 < p.1 && ((p.0 == a && p.1 == b) || (p.0 == b
            && p.1 == a)),
{
}

/// Only the two participants of a room may read, write or delete in it.
pub fn check_room_member(room: &ChatRoom, user_id: u128) -> (r: Result<(), MessageServiceError>)
    ensures
        r is Ok <==> (room.user1_id == user_id || room.user2_id == user_id),
        r matches Err(e) ==> e == MessageServiceError::Unauthorized,
{
    if room.contains_user(user_id) {
        Ok(())
    } else {
        Err(MessageServiceError::Unauthorized)
    }
}

/// The first name listed for `id` among `users`.
pub open spec fn username_of(users: Seq<(u128, String)>, id: u128) -> Option<Seq<char>>
    decreases users.len(),
{
    if users.len() == 0 {
        None
    } else if users[0].0 == id {
        Some(users[0].1@)
    } else {
        username_of(users.drop_first(), id)
    }
}

/// Finds the name of `id` among the users read from the database.
pub fn find_username(users: &Vec<(u128, String)>, id: u128) -> (r: Option<String>)
    ensures
        match r {
            Some(n) => username_of(users@, id) == Some(n@),
            None => username_of(users@, id) is None,
        },
{
    let mut i: usize = 0;
    assert(users@.skip(0) =~= users@);
    while i < users.len()
        invariant
            i <= users.len(),
            username_of(users@, id) == username_of(users@.skip(i as int), id),
        decreases users.len() - i,
    {
        assert(users@.skip(i as int)[0] == users@[i as int]);
        assert(users@.skip(i as int).drop_first() =~= users@.skip(i + 1));
        if users[i].0 == id {
            return Some(users[i].1.clone());
        }
        i = i + 1;
    }
    None
}

/// The user named `admin` may message anyone; others only the users they
/// bought from or sold to.
pub fn messages_anyone(username: &str) -> (r: bool)
    ensures
        r == (username@ == "admin"@),
{
    str_eq(username, "admin")
}

} // verus!
