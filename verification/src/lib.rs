//! A verified client library for the Bitfinex v2 HTTP API.
//!
//! The protocol layer lives here: building authentication headers for
//! private calls, locating and classifying the error envelope that the
//! exchange embeds in otherwise-successful response bodies, driving the
//! bounded retry loop, decoding positional JSON records, and building the
//! per-endpoint paths, query strings and JSON payloads.  Network I/O and
//! presentation stay outside the library.

pub mod client;
pub mod codec;
pub mod error;
pub mod funding;
pub mod json;
pub mod query;
pub mod text;
pub mod trading;
pub mod transport;
pub mod utils;
