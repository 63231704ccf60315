pub mod common;
pub mod rest;
pub mod websocket;
