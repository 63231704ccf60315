pub mod common;
pub mod rest;
