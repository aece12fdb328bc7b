//! The client of the second vendor, whose tokens carry an expiry that is
//! checked before each request.

pub mod auth;
pub mod client;
pub mod common;
pub mod product;
pub mod receipt;
