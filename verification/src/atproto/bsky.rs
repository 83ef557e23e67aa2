//! Operations of the `app.bsky` lexicons: profiles, feeds, the follow graph
//! and notifications.

use crate::atproto::client::Client;
use crate::atproto::params::{
    cursor_param, limit_param, no_params, optional_param, push_limit, push_optional,
};
use crate::atproto::xrpc::{push_param, GetRequest, Lines, PostRequest};
use crate::errors::{opt_str, BiskyError};
use crate::lexicon::app::bsky::notification::UpdateSeen;
use crate::time::Timestamp;
use vstd::prelude::*;

verus! {

/// The parameters of one page of a listing that hangs on one subject: the
/// subject under its name, the limit, and the cursor.
pub open spec fn subject_listing(
    name: Seq<char>,
    subject: Seq<char>,
    limit: usize,
    cursor: Option<Seq<char>>,
) -> Lines {
    seq![(name, subject)] + limit_param(limit) + cursor_param(cursor)
}

/// The parameters of one page of notifications.
pub open spec fn notification_listing(
    limit: usize,
    cursor: Option<Seq<char>>,
    seen_at: Option<Seq<char>>,
) -> Lines {
    limit_param(limit) + optional_param("seenAt"@, seen_at) + cursor_param(cursor)
}

impl Client {
    fn subject_query(
        &self,
        method: &str,
        name: &str,
        subject: &str,
        limit: usize,
        cursor: Option<&str>,
    ) -> (r: Result<GetRequest, BiskyError>)
        ensures
            self.guarded(
                r,
                self.get_call(method@, subject_listing(name@, subject@, limit, opt_str(cursor))),
            ),
    {
        if self.session.is_none() {
            return Err(BiskyError::MissingSession);
        }
        let mut query = no_params();
        push_param(&mut query, name, subject);
        push_limit(&mut query, limit);
        push_optional(&mut query, "cursor", cursor);
        Ok(self.xrpc_get(method, query))
    }

    /// Prepares the reading of an actor's profile.
    pub fn bsky_get_profile(&self, actor: &str) -> (r: Result<GetRequest, BiskyError>)
        ensures
            self.guarded(
                r,
                self.get_call("app.bsky.actor.getProfile"@, seq![("actor"@, actor@)]),
            ),
    {
        if self.session.is_none() {
            return Err(BiskyError::MissingSession);
        }
        let mut query = no_params();
        push_param(&mut query, "actor", actor);
        Ok(self.xrpc_get("app.bsky.actor.getProfile", query))
    }

    /// Prepares the reading of the thread around a post.
    pub fn bsky_get_post_thread(&self, uri: &str) -> (r: Result<GetRequest, BiskyError>)
        ensures
            self.guarded(
                r,
                self.get_call("app.bsky.feed.getPostThread"@, seq![("uri"@, uri@)]),
            ),
    {
        if self.session.is_none() {
            return Err(BiskyError::MissingSession);
        }
        let mut query = no_params();
        push_param(&mut query, "uri", uri);
        Ok(self.xrpc_get("app.bsky.feed.getPostThread", query))
    }

    /// Prepares the reading of one page of the likes of a post.
    pub fn bsky_get_likes(&self, uri: &str, limit: usize, cursor: Option<&str>) -> (r: Result<
        GetRequest,
        BiskyError,
    >)
        ensures
            self.guarded(
                r,
                self.get_call(
                    "app.bsky.feed.getLikes"@,
                    subject_listing("uri"@, uri@, limit, opt_str(cursor)),
                ),
            ),
    {
        self.subject_query("app.bsky.feed.getLikes", "uri", uri, limit, cursor)
    }

    /// Prepares the reading of one page of the actors that an actor follows.
    pub fn bsky_get_follows(&self, actor: &str, limit: usize, cursor: Option<&str>) -> (r: Result<
        GetRequest,
        BiskyError,
    >)
        ensures
            self.guarded(
                r,
                self.get_call(
                    "app.bsky.graph.getFollows"@,
                    subject_listing("actor"@, actor@, limit, opt_str(cursor)),
                ),
            ),
    {
        self.subject_query("app.bsky.graph.getFollows", "actor", actor, limit, cursor)
    }

    /// Prepares the reading of one page of the actors that follow an actor.
    pub fn bsky_get_followers(&self, actor: &str, limit: usize, cursor: Option<&str>) -> (r:
        Result<GetRequest, BiskyError>)
        ensures
            self.guarded(
                r,
                self.get_call(
                    "app.bsky.graph.getFollowers"@,
                    subject_listing("actor"@, actor@, limit, opt_str(cursor)),
                ),
            ),
    {
        self.subject_query("app.bsky.graph.getFollowers", "actor", actor, limit, cursor)
    }

    /// Prepares the counting of the notifications that are unread.
    pub fn bsky_get_notification_count(&self, seen_at: Option<&str>) -> (r: Result<
        GetRequest,
        BiskyError,
    >)
        ensures
            self.guarded(
                r,
                self.get_call(
                    "app.bsky.notification.getUnreadCount"@,
                    optional_param("seenAt"@, opt_str(seen_at)),
                ),
            ),
    {
        if self.session.is_none() {
            return Err(BiskyError::MissingSession);
        }
        let mut query = no_params();
        push_optional(&mut query, "seenAt", seen_at);
        Ok(self.xrpc_get("app.bsky.notification.getUnreadCount", query))
    }

    /// Prepares the reading of one page of notifications.
    pub fn bsky_list_notifications(
        &self,
        limit: usize,
        cursor: Option<&str>,
        seen_at: Option<&str>,
    ) -> (r: Result<GetRequest, BiskyError>)
        ensures
            self.guarded(
                r,
                self.get_call(
                    "app.bsky.notification.listNotifications"@,
                    notification_listing(limit, opt_str(cursor), opt_str(seen_at)),
                ),
            ),
    {
        if self.session.is_none() {
            return Err(BiskyError::MissingSession);
        }
        let mut query = no_params();
        push_limit(&mut query, limit);
        push_optional(&mut query, "seenAt", seen_at);
        push_optional(&mut query, "cursor", cursor);
        Ok(self.xrpc_get("app.bsky.notification.listNotifications", query))
    }

    /// Prepares the marking of the notifications up to an instant as seen.
    pub fn bsky_update_seen(&self, seen_at: Timestamp) -> (r: Result<
        PostRequest<UpdateSeen>,
        BiskyError,
    >)
        ensures
            self.posting(r, "app.bsky.notification.updateSeen"@, seen_at),
    {
        if self.session.is_none() {
            return Err(BiskyError::MissingSession);
        }
        Ok(self.xrpc_post("app.bsky.notification.updateSeen", UpdateSeen { seen_at }))
    }
}

} // verus!
