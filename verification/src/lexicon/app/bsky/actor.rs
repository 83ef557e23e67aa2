//! `app.bsky.actor`: profiles.

use crate::time::Timestamp;
use vstd::prelude::*;

verus! {

/// A profile as listings show it.
#[derive(Debug, PartialEq)]
pub struct ProfileView {
    pub did: String,
    pub handle: String,
    pub display_name: Option<String>,
    pub description: Option<String>,
    pub avatar: Option<String>,
    pub indexed_at: Option<Timestamp>,
}

/// A profile in full.
#[derive(Debug, PartialEq)]
pub struct ProfileViewDetailed {
    pub did: String,
    pub handle: String,
    pub display_name: Option<String>,
    pub description: Option<String>,
    pub avatar: Option<String>,
    pub banner: Option<String>,
    pub followers_count: Option<usize>,
    pub follows_count: Option<usize>,
    pub posts_count: Option<usize>,
    pub indexed_at: Option<Timestamp>,
}

} // verus!
