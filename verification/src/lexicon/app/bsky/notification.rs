//! `app.bsky.notification`: what happened to an actor's records.

use crate::lexicon::app::bsky::actor::ProfileView;
use crate::lexicon::app::bsky::feed::{Like, Post, Repost};
use crate::lexicon::app::bsky::graph::Follow;
use crate::time::Timestamp;
use vstd::prelude::*;

verus! {

/// A notification about a record of the shape `T`.
#[derive(Debug, PartialEq)]
pub struct Notification<T> {
    pub uri: String,
    pub cid: String,
    pub author: ProfileView,
    pub reason: String,
    pub reason_subject: Option<String>,
    pub record: T,
    pub is_read: bool,
    pub indexed_at: Timestamp,
}

/// The records that a notification can be about.
#[derive(Debug, PartialEq)]
pub enum NotificationRecord {
    Post(Post),
    Repost(Repost),
    Like(Like),
    Follow(Follow),
}

/// What `getUnreadCount` answers.
#[derive(Debug, PartialEq)]
pub struct NotificationCount {
    pub count: usize,
}

/// One page of notifications.
#[derive(Debug, PartialEq)]
pub struct ListNotificationsOutput<T> {
    pub cursor: Option<String>,
    pub notifications: Vec<Notification<T>>,
}

/// The input of `updateSeen`.
#[derive(Debug, PartialEq)]
pub struct UpdateSeen {
    pub seen_at: Timestamp,
}

impl View for UpdateSeen {
    type V = Timestamp;

    open spec fn view(&self) -> Timestamp {
        self.seen_at
    }
}

impl<T> ListNotificationsOutput<T> {
    /// Takes the page apart into its notifications and the next cursor.
    pub fn into_page(self) -> (r: (Vec<Notification<T>>, Option<String>))
        ensures
            r.0 == self.notifications,
            r.1 == self.cursor,
    {
        (self.notifications, self.cursor)
    }
}

} // verus!
