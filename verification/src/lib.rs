//! Authentication core of a blog backend: request validation, credential
//! hashing, bearer tokens, and the registration and login flows, with every
//! rule stated as a contract and proved.
//!
//! - [`error`]: the four kinds of failure and the messages and statuses they
//!   are reported with.
//! - [`validation`], [`password`], [`text`], [`utils::jwt`]: the input rules,
//!   password hashing, email normalization and tokens.
//! - [`models`]: the records of the platform and the bodies of its requests
//!   and responses.
//! - [`store`]: what the flows ask of a credential store, what a faithful
//!   store answers, and a store in memory.
//! - [`handlers::auth`]: registration, login and logout.
//! - [`laws`]: what holds of all of these together.

pub mod error;
pub mod handlers;
pub mod laws;
pub mod models;
pub mod password;
pub mod store;
pub mod text;
pub mod time;
pub mod utils;
pub mod validation;
