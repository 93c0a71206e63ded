//! Discovery of Webmention endpoints: given the base URL, `Link` header
//! values and body of a fetched resource, find the absolute URL to which a
//! Webmention notification should be sent.
//!
//! The scanning and resolution logic is pure and verified; network transport
//! is left to the caller, which hands the already-fetched parts to
//! [`parser::parse`].

pub mod client;
pub mod header;
pub mod markup;
pub mod parser;
pub mod result;
pub mod text;
pub mod types;
pub mod web;

pub use crate::client::Client;
pub use crate::result::Error;
