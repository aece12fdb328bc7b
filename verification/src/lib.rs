//! Typed building blocks for supermarket API clients: the token lifecycle of
//! each vendor and the request pipeline that consults it, written without any
//! I/O of their own so that every decision carries a verified contract.
//!
//! - [`auth`] holds what every authentication strategy shares; the two
//!   strategies live with their vendors, in [`albert_heijn::auth`] and
//!   [`jumbo::auth`].
//! - [`json`] and [`graphql`] are the request pipeline: they describe a
//!   request, take in what the strategy decided, and classify the answer.
//! - [`error`] names the failures that flow through every layer.
//! - [`albert_heijn`] and [`jumbo`] describe the calls of the vendors' APIs
//!   and the shapes of their answers; [`receipt`] and [`product`] are the
//!   shapes that all vendors are presented in.
//! - [`time`], [`iso_date`], [`iso_date_option`] and [`text`] are the
//!   instants, dates and texts that the rest is built from, and
//!   [`credentials`] keeps tokens between runs.

pub mod albert_heijn;
pub mod auth;
pub mod client;
pub mod credentials;
pub mod error;
pub mod graphql;
pub mod iso_date;
pub mod iso_date_option;
pub mod json;
pub mod jumbo;
pub mod product;
pub mod receipt;
pub mod text;
pub mod time;
