//! `app.bsky.graph`: who follows whom.

use crate::lexicon::app::bsky::actor::ProfileView;
use crate::time::Timestamp;
use vstd::prelude::*;

verus! {

/// A follow record.
#[derive(Debug, PartialEq)]
pub struct Follow {
    pub created_at: Timestamp,
    /// The identifier of the actor that is followed.
    pub subject: String,
}

/// One page of the actors that an actor follows.
#[derive(Debug, PartialEq)]
pub struct GetFollowsOutput {
    pub subject: ProfileView,
    pub cursor: Option<String>,
    pub follows: Vec<ProfileView>,
}

/// One page of the actors that follow an actor.
#[derive(Debug, PartialEq)]
pub struct GetFollowersOutput {
    pub subject: ProfileView,
    pub cursor: Option<String>,
    pub followers: Vec<ProfileView>,
}

} // verus!
