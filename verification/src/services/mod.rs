//! Services: the decisions the request handlers and background tasks make.
pub mod auction_service;
pub mod countdown_service;
pub mod image_service;
pub mod message_service;
pub mod notification_service;
pub mod purchase_service;
pub mod recommendation_service;
pub mod seeding_service;
pub mod user_service;
pub mod user_websocket_service;
pub mod websocket_service;
