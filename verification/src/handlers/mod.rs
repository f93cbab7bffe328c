pub mod auth;
pub mod messages;
pub mod websocket;
