//! Clients for cryptocurrency exchanges: request building, request signing,
//! and decoding of REST and websocket messages.

pub mod account_laws;
pub mod compression;
pub mod json;
pub mod feed_laws;
pub mod laws;
pub mod message_laws;
pub mod request_laws;
pub mod text;
pub mod str_map;
pub mod types;
pub mod vocabulary_laws;
pub mod exchange_client;
pub mod exchanges;
pub mod networking;
pub mod signing;
pub mod sorting;
pub mod time;
