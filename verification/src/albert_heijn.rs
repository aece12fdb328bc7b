//! The client of the first vendor, whose tokens are refreshed eagerly and
//! who hands out anonymous tokens.

pub mod auth;
pub mod client;
pub mod common;
pub mod product;
pub mod receipt;
