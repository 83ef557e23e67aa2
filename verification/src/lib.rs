//! A typed client core for the AT Protocol's XRPC interface.
//!
//! The crate prepares requests, interprets responses and drives
//! cursor-paginated listings. It performs no network traffic itself: every
//! operation yields a request value for a transport to carry, and every
//! response is handed back as plain values.

pub mod atproto;
pub mod bluesky;
pub mod errors;
pub mod text;
pub mod time;

pub mod firehose;
pub mod lexicon;
