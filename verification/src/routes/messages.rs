//! How the messaging endpoints answer failures.
use crate::services::message_service::MessageServiceError;
use crate::text::owned;
use vstd::prelude::*;

verus! {

/// The messaging endpoints.
#[derive(Debug, Clone, Copy, PartialEq, Eq, Structural)]
pub enum MessageEndpoint {
    CreateChatRoom,
    GetMessages,
    SendMessage,
    DeleteMessage,
    GetConnections,
}

/// The HTTP status and error text with which `endpoint` answers `e`.
pub open spec fn message_failure_reply(endpoint: MessageEndpoint, e: MessageServiceError) -> (
    u16,
    Seq<char>,
) {
    let fallback = match endpoint {
        MessageEndpoint::CreateChatRoom => "Failed to create chat room"@,
        MessageEndpoint::GetMessages => "Failed to get messages"@,
        MessageEndpoint::SendMessage => "Failed to send message"@,
        MessageEndpoint::DeleteMessage => "Failed to delete message"@,
        MessageEndpoint::GetConnections => "Failed to get connections"@,
    };
    match (endpoint, e) {
        (MessageEndpoint::CreateChatRoom, MessageServiceError::SelfMessage) => (
            400u16,
            "You cannot message yourself"@,
        ),
        (MessageEndpoint::CreateChatRoom, MessageServiceError::ValidationError(m)) => (400u16, m@),
        (MessageEndpoint::SendMessage, MessageServiceError::ValidationError(m)) => (400u16, m@),
        (MessageEndpoint::GetMessages, MessageServiceError::ChatRoomNotFound) => (
            404u16,
            "Chat room not found"@,
        ),
        (MessageEndpoint::SendMessage, MessageServiceError::ChatRoomNotFound) => (
            404u16,
            "Chat room not found"@,
        ),
        (MessageEndpoint::DeleteMessage, MessageServiceError::ChatRoomNotFound) => (
            404u16,
            "Chat room not found"@,
        ),
        (MessageEndpoint::DeleteMessage, MessageServiceError::MessageNotFound) => (
            404u16,
            "Message not found or you don't have permission to delete it"@,
        ),
        (MessageEndpoint::GetMessages, MessageServiceError::Unauthorized) => (
            403u16,
            "You don't have access to this chat room"@,
        ),
        (MessageEndpoint::SendMessage, MessageServiceError::Unauthorized) => (
            403u16,
            "You don't have access to this chat room"@,
        ),
        (MessageEndpoint::DeleteMessage, MessageServiceError::Unauthorized) => (
            403u16,
            "You don't have access to this chat room"@,
        ),
        _ => (500u16, fallback),
    }
}

/// How `endpoint` answers the failure `e`: the status and the text of its
/// `error` field.
pub fn message_failure(endpoint: MessageEndpoint, e: &MessageServiceError) -> (r: (u16, String))
    ensures
        r.0 == message_failure_reply(endpoint, *e).0,
        r.1@ == message_failure_reply(endpoint, *e).1,
{
    match (endpoint, e) {
        (MessageEndpoint::CreateChatRoom, MessageServiceError::SelfMessage) => (
            400,
            owned("You cannot message yourself"),
        ),
        (MessageEndpoint::CreateChatRoom, MessageServiceError::ValidationError(m)) => (
            400,
            m.clone(),
        ),
        (MessageEndpoint::SendMessage, MessageServiceError::ValidationError(m)) => (400, m.clone()),
        (MessageEndpoint::GetMessages, MessageServiceError::ChatRoomNotFound)
        | (MessageEndpoint::SendMessage, MessageServiceError::ChatRoomNotFound)
        | (MessageEndpoint::DeleteMessage, MessageServiceError::ChatRoomNotFound) => (
            404,
            owned("Chat room not found"),
        ),
        (MessageEndpoint::DeleteMessage, MessageServiceError::MessageNotFound) => (
            404,
            owned("Message not found or you don't have permission to delete it"),
        ),
        (MessageEndpoint::GetMessages, MessageServiceError::Unauthorized)
        | (MessageEndpoint::SendMessage, MessageServiceError::Unauthorized)
        | (MessageEndpoint::DeleteMessage, MessageServiceError::Unauthorized) => (
            403,
            owned("You don't have access to this chat room"),
        ),
        _ => (
            500,
            owned(
                match endpoint {
                    MessageEndpoint::CreateChatRoom => "Failed to create chat room",
                    MessageEndpoint::GetMessages => "Failed to get messages",
                    MessageEndpoint::SendMessage => "Failed to send message",
                    MessageEndpoint::DeleteMessage => "Failed to delete message",
                    MessageEndpoint::GetConnections => "Failed to get connections",
                },
            ),
        ),
    }
}

} // verus!
