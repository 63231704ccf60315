pub mod http;
pub mod websocket;
