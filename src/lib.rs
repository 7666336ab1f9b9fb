//! Profile-completeness achievements: the rules that decide which badges a
//! profile has earned, an append-only grant store, and the response envelope
//! and error taxonomy of the service around them.

pub mod response;
pub mod error;
pub mod achievement;
pub mod store;
pub mod config;
pub mod shadow_user;
pub mod service;
