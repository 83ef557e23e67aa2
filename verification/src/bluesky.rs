//! The entry point: a client, and handles on it that are scoped to one actor.

use crate::atproto::bsky::{notification_listing, subject_listing};
use crate::atproto::paging::StreamView;
use crate::atproto::params::UNBOUNDED;
use crate::atproto::repo::{listing, record_key};
use crate::atproto::stream::ListingView;
use crate::atproto::xrpc::{GetRequest, PostHead, PostRequest};
use crate::atproto::{Client, NotificationStream, RecordStream, StreamError};
use crate::errors::{opt_str, BiskyError, FailureView};
use crate::lexicon::app::bsky::feed::Post;
use crate::lexicon::app::bsky::notification::{Notification, NotificationRecord, UpdateSeen};
use crate::lexicon::com::atproto::repo::{
    CreateRecord, CreateRecordView, CreateUploadBlob, DeleteRecord, DeleteRecordView, PutRecord,
    PutRecordView, Record,
};
use crate::time::now;
use vstd::prelude::*;

verus! {

/// A client for the Bluesky network.
#[derive(Clone)]
pub struct Bluesky {
    client: Client,
}

/// A handle on the client that acts as the session's own actor. It keeps the
/// client to itself for as long as it lives.
pub struct BlueskyMe<'a> {
    client: &'a mut Client,
    username: String,
}

/// A handle on the client that is scoped to an actor of the caller's choice.
/// It keeps the client to itself for as long as it lives.
pub struct BlueskyUser<'a> {
    client: &'a mut Client,
    username: String,
}

impl Default for Bluesky {
    fn default() -> (r: Bluesky)
        ensures
            r.client().service@ == "https://bsky.social"@,
            r.client().session is None,
    {
        Bluesky { client: Client::default() }
    }
}

impl Bluesky {
    /// The client that is held.
    pub closed spec fn client(&self) -> Client {
        self.client
    }

    /// Takes a client, with or without a session.
    pub fn new(client: Client) -> (r: Self)
        ensures
            r.client() == client,
    {
        Self { client }
    }

    /// Gives the client back.
    pub fn into_client(self) -> (r: Client)
        ensures
            r == self.client(),
    {
        self.client
    }

    /// A handle scoped to an actor of the caller's choice. It takes a
    /// session, though the actor need not be the session's own.
    pub fn user(&mut self, username: &str) -> (r: Result<BlueskyUser<'_>, BiskyError>)
        ensures
            match r {
                Ok(handle) => {
                    &&& old(self).client().session is Some
                    &&& handle.client() == old(self).client()
                    &&& handle.actor() == username@
                    &&& final(self).client() == *final(handle.borrow())
                },
                Err(e) => {
                    &&& old(self).client().session is None
                    &&& e@ == FailureView::MissingSession
                    &&& final(self).client() == old(self).client()
                },
            },
    {
        if self.client.session.is_none() {
            return Err(BiskyError::MissingSession);
        }
        Ok(BlueskyUser { client: &mut self.client, username: String::from_str(username) })
    }

    /// A handle scoped to the session's own actor.
    pub fn me(&mut self) -> (r: Result<BlueskyMe<'_>, BiskyError>)
        ensures
            match r {
                Ok(handle) => {
                    &&& old(self).client().session matches Some(session)
                    &&& handle.client() == old(self).client()
                    &&& handle.actor() == session.did@
                    &&& final(self).client() == *final(handle.borrow())
                },
                Err(e) => {
                    &&& old(self).client().session is None
                    &&& e@ == FailureView::MissingSession
                    &&& final(self).client() == old(self).client()
                },
            },
    {
        let username = match &self.client.session {
            Some(session) => session.did.clone(),
            None => {
                return Err(BiskyError::MissingSession);
            },
        };
        Ok(BlueskyMe { username, client: &mut self.client })
    }
}

impl<'a> BlueskyMe<'a> {
    /// The client behind the handle, as it stands.
    pub closed spec fn client(&self) -> Client {
        *self.client
    }

    /// The borrow of the client that the handle holds.
    pub closed spec fn borrow(self) -> &'a mut Client {
        self.client
    }

    /// The identifier of the actor that the handle is scoped to.
    pub fn username(&self) -> (r: &str)
        ensures
            r@ == self.actor(),
    {
        self.username.as_str()
    }

    /// Ends the handle. It leaves the client as it was.
    pub fn release(self)
        ensures
            *final(self.borrow()) == self.client(),
    {
    }

    /// The identifier of the actor that the handle is scoped to.
    pub closed spec fn actor(&self) -> Seq<char> {
        self.username@
    }

    /// Prepares a new post on the actor's own feed.
    pub fn post(&self, post: Post) -> (r: Result<PostRequest<CreateRecord<'_, Post>>, BiskyError>)
        ensures
            self.client().posting(
                r,
                "com.atproto.repo.createRecord"@,
                (CreateRecordView {
                    repo: self.actor(),
                    collection: "app.bsky.feed.post"@,
                    record: post,
                    rkey: None,
                    validate: None,
                    swap_commit: None,
                }),
            ),
    {
        self.client.repo_create_record(
            self.username.as_str(),
            "app.bsky.feed.post",
            None,
            None,
            None,
            post,
        )
    }

    /// Prepares the creation of a record in the actor's own repository.
    pub fn create_record<'b, S>(
        &'b self,
        collection: &'b str,
        rkey: Option<&'b str>,
        validate: Option<bool>,
        swap_commit: Option<&'b str>,
        record: S,
    ) -> (r: Result<PostRequest<CreateRecord<'b, S>>, BiskyError>)
        ensures
            self.client().posting(
                r,
                "com.atproto.repo.createRecord"@,
                (CreateRecordView {
                    repo: self.actor(),
                    collection: collection@,
                    record,
                    rkey: opt_str(rkey),
                    validate,
                    swap_commit: opt_str(swap_commit),
                }),
            ),
    {
        self.client.repo_create_record(
            self.username.as_str(),
            collection,
            rkey,
            validate,
            swap_commit,
            record,
        )
    }

    /// Prepares the writing of a record at a known key of the actor's own
    /// repository.
    pub fn put_record<'b, S>(
        &'b self,
        collection: &'b str,
        rkey: &'b str,
        validate: Option<bool>,
        swap_commit: Option<&'b str>,
        swap_record: Option<&'b str>,
        record: S,
    ) -> (r: Result<PostRequest<PutRecord<'b, S>>, BiskyError>)
        ensures
            self.client().posting(
                r,
                "com.atproto.repo.putRecord"@,
                (PutRecordView {
                    repo: self.actor(),
                    collection: collection@,
                    record,
                    rkey: rkey@,
                    validate,
                    swap_record: opt_str(swap_record),
                    swap_commit: opt_str(swap_commit),
                }),
            ),
    {
        self.client.repo_put_record(
            self.username.as_str(),
            collection,
            rkey,
            swap_record,
            swap_commit,
            validate,
            record,
        )
    }

    /// Prepares the counting of the actor's unread notifications.
    pub fn get_notification_count(&self, seen_at: Option<&str>) -> (r: Result<
        GetRequest,
        BiskyError,
    >)
        ensures
            self.client().guarded(
                r,
                self.client().get_call(
                    "app.bsky.notification.getUnreadCount"@,
                    crate::atproto::params::optional_param("seenAt"@, opt_str(seen_at)),
                ),
            ),
    {
        self.client.bsky_get_notification_count(seen_at)
    }

    /// Prepares the reading of the first page of the actor's notifications.
    pub fn list_notifications(&self, limit: usize) -> (r: Result<GetRequest, BiskyError>)
        ensures
            self.client().guarded(
                r,
                self.client().get_call(
                    "app.bsky.notification.listNotifications"@,
                    notification_listing(limit, None, None),
                ),
            ),
    {
        self.client.bsky_list_notifications(limit, None, None)
    }

    /// Opens a stream over the actor's notifications.
    pub fn stream_notifications(&self) -> (r: Result<
        NotificationStream<Notification<NotificationRecord>>,
        StreamError,
    >)
        ensures
            self.client().streaming(
                r,
                (ListingView {
                    first: self.client().get_call(
                        "app.bsky.notification.listNotifications"@,
                        notification_listing(UNBOUNDED, None, None),
                    ),
                    engine: StreamView::<Notification<NotificationRecord>>::opened(),
                }),
            ),
    {
        self.client.bsky_stream_notifications(None)
    }

    /// Prepares the marking of the actor's notifications as seen, as of the
    /// instant at which the system clock stands. The call is that of
    /// [`Client::bsky_update_seen`] for that instant; of the instant itself
    /// only so much is known as holds of every reading of the clock.
    pub fn update_seen(&self) -> (r: Result<PostRequest<UpdateSeen>, BiskyError>)
        ensures
            match r {
                Ok(call) => {
                    &&& self.client().session is Some
                    &&& call.head() == self.client().json_head(
                        "app.bsky.notification.updateSeen"@,
                    )
                    &&& call.body.seen_at.secs >= 0
                    &&& call.body.seen_at.nanos < 1_000_000_000
                },
                Err(e) => self.client().session is None && e@ == FailureView::MissingSession,
            },
    {
        if self.client.session.is_none() {
            return Err(BiskyError::MissingSession);
        }
        self.client.bsky_update_seen(now())
    }

    /// Prepares the upload of an attachment for later use in a post.
    pub fn upload_blob(&self, blob: &[u8], mime_type: &str) -> (r: Result<
        PostRequest<CreateUploadBlob>,
        BiskyError,
    >)
        ensures
            match r {
                Ok(call) => {
                    &&& self.client().session is Some
                    &&& call.head() == (PostHead {
                        content_type: mime_type@,
                        ..self.client().json_head("com.atproto.repo.uploadBlob"@)
                    })
                    &&& call.body@ == blob@
                },
                Err(e) => self.client().session is None && e@ == FailureView::MissingSession,
            },
    {
        self.client.repo_upload_blob(blob, mime_type)
    }

    /// Prepares the reading of the thread around a post.
    pub fn get_post_thread(&self, uri: &str) -> (r: Result<GetRequest, BiskyError>)
        ensures
            self.client().guarded(
                r,
                self.client().get_call("app.bsky.feed.getPostThread"@, seq![("uri"@, uri@)]),
            ),
    {
        self.client.bsky_get_post_thread(uri)
    }

    /// Prepares the deletion of a record of the actor's own repository.
    pub fn delete_record<'b>(
        &'b self,
        collection: &'b str,
        rkey: &'b str,
        swap_commit: Option<&'b str>,
        swap_record: Option<&'b str>,
    ) -> (r: Result<PostRequest<DeleteRecord<'b>>, BiskyError>)
        ensures
            self.client().posting(
                r,
                "com.atproto.repo.deleteRecord"@,
                (DeleteRecordView {
                    repo: self.actor(),
                    collection: collection@,
                    rkey: rkey@,
                    swap_record: opt_str(swap_record),
                    swap_commit: opt_str(swap_commit),
                }),
            ),
    {
        self.client.repo_delete_record(
            self.username.as_str(),
            collection,
            rkey,
            swap_record,
            swap_commit,
        )
    }
}

impl<'a> BlueskyUser<'a> {
    /// The client behind the handle, as it stands.
    pub closed spec fn client(&self) -> Client {
        *self.client
    }

    /// The borrow of the client that the handle holds.
    pub closed spec fn borrow(self) -> &'a mut Client {
        self.client
    }

    /// The identifier of the actor that the handle is scoped to.
    pub fn username(&self) -> (r: &str)
        ensures
            r@ == self.actor(),
    {
        self.username.as_str()
    }

    /// Ends the handle. It leaves the client as it was.
    pub fn release(self)
        ensures
            *final(self.borrow()) == self.client(),
    {
    }

    /// The identifier of the actor that the handle is scoped to.
    pub closed spec fn actor(&self) -> Seq<char> {
        self.username@
    }

    /// Prepares the reading of the actor's profile.
    pub fn get_profile(&self) -> (r: Result<GetRequest, BiskyError>)
        ensures
            self.client().guarded(
                r,
                self.client().get_call(
                    "app.bsky.actor.getProfile"@,
                    seq![("actor"@, self.actor())],
                ),
            ),
    {
        self.client.bsky_get_profile(self.username.as_str())
    }

    /// Prepares the reading of another actor's profile.
    pub fn get_profile_other(&self, other: &str) -> (r: Result<GetRequest, BiskyError>)
        ensures
            self.client().guarded(
                r,
                self.client().get_call("app.bsky.actor.getProfile"@, seq![("actor"@, other@)]),
            ),
    {
        self.client.bsky_get_profile(other)
    }

    /// Prepares the lookup of the actor behind a handle. The lookup itself
    /// needs no session, but a call through this handle does.
    pub fn resolve_handle(&self, handle: &str) -> (r: Result<GetRequest, BiskyError>)
        ensures
            self.client().guarded(
                r,
                self.client().get_call(
                    "com.atproto.identity.resolveHandle"@,
                    seq![("handle"@, handle@)],
                ),
            ),
    {
        if self.client.session.is_none() {
            return Err(BiskyError::MissingSession);
        }
        Ok(self.client.repo_resolve_handle(handle))
    }

    /// Prepares the reading of one page of the likes of a post.
    pub fn get_likes(&self, uri: &str, limit: usize, cursor: Option<&str>) -> (r: Result<
        GetRequest,
        BiskyError,
    >)
        ensures
            self.client().guarded(
                r,
                self.client().get_call(
                    "app.bsky.feed.getLikes"@,
                    subject_listing("uri"@, uri@, limit, opt_str(cursor)),
                ),
            ),
    {
        self.client.bsky_get_likes(uri, limit, cursor)
    }

    /// Prepares the reading of one page of the actors that the actor follows.
    pub fn get_follows(&self, limit: usize, cursor: Option<&str>) -> (r: Result<
        GetRequest,
        BiskyError,
    >)
        ensures
            self.client().guarded(
                r,
                self.client().get_call(
                    "app.bsky.graph.getFollows"@,
                    subject_listing("actor"@, self.actor(), limit, opt_str(cursor)),
                ),
            ),
    {
        self.client.bsky_get_follows(self.username.as_str(), limit, cursor)
    }

    /// Prepares the reading of one page of the actors that follow the actor.
    pub fn get_followers(&self, limit: usize, cursor: Option<&str>) -> (r: Result<
        GetRequest,
        BiskyError,
    >)
        ensures
            self.client().guarded(
                r,
                self.client().get_call(
                    "app.bsky.graph.getFollowers"@,
                    subject_listing("actor"@, self.actor(), limit, opt_str(cursor)),
                ),
            ),
    {
        self.client.bsky_get_followers(self.username.as_str(), limit, cursor)
    }

    /// Prepares the reading of one record of any repository.
    pub fn get_record(&self, repo: &str, collection: &str, rkey: &str) -> (r: Result<
        GetRequest,
        BiskyError,
    >)
        ensures
            self.client().guarded(
                r,
                self.client().get_call(
                    "com.atproto.repo.getRecord"@,
                    record_key(repo@, collection@, rkey@),
                ),
            ),
    {
        self.client.repo_get_record(repo, collection, rkey)
    }

    /// Prepares the reading of the first page of the actor's posts, with the
    /// page size left to the server.
    pub fn list_posts(&self) -> (r: Result<GetRequest, BiskyError>)
        ensures
            self.client().guarded(
                r,
                self.client().get_call(
                    "com.atproto.repo.listRecords"@,
                    listing(self.actor(), "app.bsky.feed.post"@, UNBOUNDED, false, None),
                ),
            ),
    {
        self.client.repo_list_records(
            self.username.as_str(),
            "app.bsky.feed.post",
            UNBOUNDED,
            false,
            None,
        )
    }

    /// Prepares the reading of the first page of a collection of any
    /// repository, with the page size left to the server.
    pub fn list_records(&self, collection: &str, repo: &str) -> (r: Result<
        GetRequest,
        BiskyError,
    >)
        ensures
            self.client().guarded(
                r,
                self.client().get_call(
                    "com.atproto.repo.listRecords"@,
                    listing(repo@, collection@, UNBOUNDED, false, None),
                ),
            ),
    {
        self.client.repo_list_records(repo, collection, UNBOUNDED, false, None)
    }

    /// Opens a stream over the actor's posts.
    pub fn stream_posts(&self) -> (r: Result<RecordStream<Post>, StreamError>)
        ensures
            self.client().streaming(
                r,
                (ListingView {
                    first: self.client().get_call(
                        "com.atproto.repo.listRecords"@,
                        listing(self.actor(), "app.bsky.feed.post"@, UNBOUNDED, false, None),
                    ),
                    engine: StreamView::<Record<Post>>::opened(),
                }),
            ),
    {
        self.client.repo_stream_records(self.username.as_str(), "app.bsky.feed.post")
    }
}

} // verus!
