pub mod common;
pub mod websocket;
