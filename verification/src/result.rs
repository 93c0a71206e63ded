//! Errors produced while discovering a Webmention endpoint.

use vstd::prelude::*;

verus! {

/// Errors produced by the parser.
#[derive(Debug, Clone, Copy, PartialEq, Eq, Structural)]
pub enum ParseError {
    /// No valid URL could be parsed from a candidate or a reconstruction.
    InvalidUrl,
    /// No valid URI reference could be parsed.
    InvalidUri,
    /// No reconstruction path produced a URL from the reference.
    InvalidHeader,
    /// A candidate was rejected before classification, e.g. it was empty.
    InvalidValue,
}

/// Errors produced while building a client.
#[derive(Debug, Clone, Copy, PartialEq, Eq, Structural)]
pub enum ClientError {
    /// A required parameter was missing or malformed.
    InvalidParam,
}

/// Any error of this crate.
#[derive(Debug, Clone, Copy, PartialEq, Eq, Structural)]
pub enum Error {
    /// Problem while initializing or running the client.
    Client(ClientError),
    /// Problem while parsing or validating URLs.
    Parse(ParseError),
}

} // verus!
