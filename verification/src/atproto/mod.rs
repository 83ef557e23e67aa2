//! The protocol client: sessions, single calls and paginated streams.

pub mod answers;
pub mod bsky;
pub mod client;
pub mod paging;
pub mod params;
pub mod query;
pub mod repo;
pub mod runs;
pub mod stream;
pub mod xrpc;

pub use crate::errors::StreamError;
pub use crate::lexicon::com::atproto::server::Session;
pub use client::Client;
pub use stream::{NotificationStream, RecordStream};
