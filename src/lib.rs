pub mod address;
pub mod error;
pub mod lifecycle;
pub mod outbound;
pub mod validate;
pub mod websocket;
