//! Helpers of the authentication flows.

pub mod jwt;
