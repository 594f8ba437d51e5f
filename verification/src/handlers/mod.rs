//! The flows that answer requests.

pub mod auth;
