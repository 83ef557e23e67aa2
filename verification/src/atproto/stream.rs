//! Streams over the listings of the protocol: the pagination engine together
//! with the call that fetches a page.

use crate::atproto::bsky::notification_listing;
use crate::atproto::client::Client;
use crate::atproto::paging::{
    fetched_view, Fetched, Page, PageStream, PageView, Phase, Poll, PollView, StreamView,
};
use crate::atproto::params::{cursor_param, push_optional, UNBOUNDED};
use crate::atproto::repo::listing;
use crate::atproto::xrpc::{
    interpret, lines, verdict, GetRequest, GetView, Outcome, Params,
};
use crate::errors::{opt_str, opt_text, BiskyError, FailureView, StreamError};
use crate::lexicon::app::bsky::notification::{ListNotificationsOutput, Notification};
use crate::lexicon::com::atproto::repo::{ListRecordsOutput, Record};
use crate::text::copy_optional;
use vstd::prelude::*;

verus! {

/// What a stream over a listing answers when it is asked for the next item.
#[derive(Debug, PartialEq)]
pub enum Demand<T> {
    /// The next item.
    Item(T),
    /// This call is to be sent, and its outcome supplied, before there can be
    /// an item.
    Fetch(GetRequest),
    /// There are no further items.
    End,
}

/// An answer of a stream over a listing, with its call as texts.
pub enum DemandView<T> {
    Item(T),
    Fetch(GetView),
    End,
}

impl<T> View for Demand<T> {
    type V = DemandView<T>;

    open spec fn view(&self) -> DemandView<T> {
        match *self {
            Demand::Item(x) => DemandView::Item(x),
            Demand::Fetch(call) => DemandView::Fetch(call@),
            Demand::End => DemandView::End,
        }
    }
}

/// The call that fetches the page with a cursor: the call for the first page
/// with the cursor, verbatim, as its last parameter.
pub open spec fn page_call(first: GetView, cursor: Option<Seq<char>>) -> GetView {
    GetView { query: first.query + cursor_param(cursor), ..first }
}

/// The answer of a stream over a listing for an answer of its engine.
pub open spec fn demanded<T>(first: GetView, answer: PollView<T>) -> DemandView<T> {
    match answer {
        PollView::Item(x) => DemandView::Item(x),
        PollView::Fetch(cursor) => DemandView::Fetch(page_call(first, cursor)),
        PollView::End => DemandView::End,
    }
}

/// The state of a stream over a listing.
pub struct ListingView<T> {
    /// The call for the first page.
    pub first: GetView,
    /// The state of the engine.
    pub engine: StreamView<T>,
}

/// A stream over a listing whose pages hold items of the shape `T`.
pub struct Listing<T> {
    first: GetRequest,
    engine: PageStream<T>,
}

impl<T> View for Listing<T> {
    type V = ListingView<T>;

    closed spec fn view(&self) -> ListingView<T> {
        ListingView { first: self.first@, engine: self.engine@ }
    }
}

fn copy_params(params: &Params) -> (r: Params)
    ensures
        lines(r@) == lines(params@),
{
    let mut r: Params = Vec::new();
    let mut i: usize = 0;
    while i < params.len()
        invariant
            i <= params.len(),
            r@.len() == i,
            forall|j: int| 0 <= j < i ==> r@[j].0@ == params@[j].0@ && r@[j].1@ == params@[j].1@,
        decreases params.len() - i,
    {
        let pair = (params[i].0.clone(), params[i].1.clone());
        r.push(pair);
        i = i + 1;
    }
    r
}

impl<T> Listing<T> {
    /// A stream before its first page, over the listing that a call reads.
    pub fn new(first: GetRequest) -> (r: Listing<T>)
        ensures
            r@ == (ListingView { first: first@, engine: StreamView::<T>::opened() }),
    {
        Listing { first, engine: PageStream::new() }
    }

    /// Where the stream stands.
    pub fn phase(&self) -> (r: Phase)
        ensures
            r == self@.engine.phase,
    {
        self.engine.phase()
    }

    /// Asks for the next item.
    pub fn poll(&mut self) -> (r: Demand<T>)
        ensures
            final(self)@.first == old(self)@.first,
            final(self)@.engine == old(self)@.engine.polled().0,
            r@ == demanded(old(self)@.first, old(self)@.engine.polled().1),
    {
        match self.engine.poll() {
            Poll::Item(x) => Demand::Item(x),
            Poll::End => Demand::End,
            Poll::Fetch(cursor) => {
                let mut query = copy_params(&self.first.query);
                let at = match &cursor {
                    Some(c) => Some(c.as_str()),
                    None => None,
                };
                push_optional(&mut query, "cursor", at);
                let call = GetRequest {
                    address: self.first.address.clone(),
                    query,
                    authorization: copy_optional(&self.first.authorization),
                };
                Demand::Fetch(call)
            },
        }
    }

    /// Supplies the page that the stream asked for, or the failure to fetch
    /// it. The failure comes back as the stream's error, once.
    pub fn supply(&mut self, fetched: Result<Page<T>, BiskyError>) -> (r: Result<(), StreamError>)
        ensures
            final(self)@.first == old(self)@.first,
            final(self)@.engine == old(self)@.engine.supplied(fetched_view(fetched)),
            match r {
                Ok(_) => old(self)@.engine.reported(fetched_view(fetched)) is None,
                Err(e) => old(self)@.engine.reported(fetched_view(fetched)) == Some(e@),
            },
    {
        self.engine.supply(fetched)
    }
}

/// The page that the outcome of `listRecords` holds, or the failure that it
/// amounts to.
pub open spec fn records_fetched<T>(outcome: Outcome<ListRecordsOutput<T>>) -> Fetched<Record<T>> {
    match verdict(outcome) {
        Ok(output) => Ok(PageView { items: output.records@, cursor: opt_text(output.cursor) }),
        Err(e) => Err(e),
    }
}

/// The page that the outcome of `listNotifications` holds, or the failure
/// that it amounts to.
pub open spec fn notifications_fetched<T>(outcome: Outcome<ListNotificationsOutput<T>>) -> Fetched<
    Notification<T>,
> {
    match verdict(outcome) {
        Ok(output) => Ok(
            PageView { items: output.notifications@, cursor: opt_text(output.cursor) },
        ),
        Err(e) => Err(e),
    }
}

/// The records of a collection as one sequence.
pub struct RecordStream<T> {
    inner: Listing<Record<T>>,
}

/// The notifications of an actor as one sequence of items of the shape `T`.
pub struct NotificationStream<T> {
    inner: Listing<T>,
}

impl<T> View for RecordStream<T> {
    type V = ListingView<Record<T>>;

    closed spec fn view(&self) -> ListingView<Record<T>> {
        self.inner@
    }
}

impl<T> View for NotificationStream<T> {
    type V = ListingView<T>;

    closed spec fn view(&self) -> ListingView<T> {
        self.inner@
    }
}

impl<T> RecordStream<T> {
    /// Where the stream stands.
    pub fn phase(&self) -> (r: Phase)
        ensures
            r == self@.engine.phase,
    {
        self.inner.phase()
    }

    /// Asks for the next record.
    pub fn poll(&mut self) -> (r: Demand<Record<T>>)
        ensures
            final(self)@.first == old(self)@.first,
            final(self)@.engine == old(self)@.engine.polled().0,
            r@ == demanded(old(self)@.first, old(self)@.engine.polled().1),
    {
        self.inner.poll()
    }

    /// Supplies the outcome of the call that the stream asked for.
    pub fn supply(&mut self, outcome: Outcome<ListRecordsOutput<T>>) -> (r: Result<
        (),
        StreamError,
    >)
        ensures
            final(self)@.first == old(self)@.first,
            final(self)@.engine == old(self)@.engine.supplied(records_fetched(outcome)),
            match r {
                Ok(_) => old(self)@.engine.reported(records_fetched(outcome)) is None,
                Err(e) => old(self)@.engine.reported(records_fetched(outcome)) == Some(e@),
            },
    {
        let fetched = match interpret(outcome) {
            Ok(output) => {
                let (items, cursor) = output.into_page();
                Ok(Page { items, cursor })
            },
            Err(e) => Err(e),
        };
        self.inner.supply(fetched)
    }
}

impl<T> NotificationStream<T> {
    /// Where the stream stands.
    pub fn phase(&self) -> (r: Phase)
        ensures
            r == self@.engine.phase,
    {
        self.inner.phase()
    }

    /// Asks for the next notification.
    pub fn poll(&mut self) -> (r: Demand<T>)
        ensures
            final(self)@.first == old(self)@.first,
            final(self)@.engine == old(self)@.engine.polled().0,
            r@ == demanded(old(self)@.first, old(self)@.engine.polled().1),
    {
        self.inner.poll()
    }
}

impl<T> NotificationStream<Notification<T>> {
    /// Supplies the outcome of the call that the stream asked for.
    pub fn supply(&mut self, outcome: Outcome<ListNotificationsOutput<T>>) -> (r: Result<
        (),
        StreamError,
    >)
        ensures
            final(self)@.first == old(self)@.first,
            final(self)@.engine == old(self)@.engine.supplied(notifications_fetched(outcome)),
            match r {
                Ok(_) => old(self)@.engine.reported(notifications_fetched(outcome)) is None,
                Err(e) => old(self)@.engine.reported(notifications_fetched(outcome)) == Some(e@),
            },
    {
        let fetched = match interpret(outcome) {
            Ok(output) => {
                let (items, cursor) = output.into_page();
                Ok(Page { items, cursor })
            },
            Err(e) => Err(e),
        };
        self.inner.supply(fetched)
    }
}

impl Client {
    /// What opening a stream returns: a stream before its first page where a
    /// session is held, and the missing session where none is.
    pub open spec fn streaming<S: View>(&self, r: Result<S, StreamError>, state: S::V) -> bool {
        match r {
            Ok(s) => self.session is Some && s@ == state,
            Err(e) => self.session is None && e@ == FailureView::MissingSession,
        }
    }

    /// Opens a stream over the records of a collection, in the server's
    /// order, with the page size left to the server.
    pub fn repo_stream_records<T>(&self, repo: &str, collection: &str) -> (r: Result<
        RecordStream<T>,
        StreamError,
    >)
        ensures
            self.streaming(
                r,
                (ListingView {
                    first: self.get_call(
                        "com.atproto.repo.listRecords"@,
                        listing(repo@, collection@, UNBOUNDED, false, None),
                    ),
                    engine: StreamView::<Record<T>>::opened(),
                }),
            ),
    {
        match self.repo_list_records(repo, collection, UNBOUNDED, false, None) {
            Ok(first) => Ok(RecordStream { inner: Listing::new(first) }),
            Err(e) => Err(StreamError::Bisky(e)),
        }
    }

    /// Opens a stream over the notifications of the session's actor, with the
    /// page size left to the server.
    pub fn bsky_stream_notifications<T>(&self, seen_at: Option<&str>) -> (r: Result<
        NotificationStream<Notification<T>>,
        StreamError,
    >)
        ensures
            self.streaming(
                r,
                (ListingView {
                    first: self.get_call(
                        "app.bsky.notification.listNotifications"@,
                        notification_listing(UNBOUNDED, None, opt_str(seen_at)),
                    ),
                    engine: StreamView::<Notification<T>>::opened(),
                }),
            ),
    {
        match self.bsky_list_notifications(UNBOUNDED, None, seen_at) {
            Ok(first) => Ok(NotificationStream { inner: Listing::new(first) }),
            Err(e) => Err(StreamError::Bisky(e)),
        }
    }
}

/// The call by which a stream over a collection fetches the page with a
/// cursor is the call that reads that page of the collection.
pub proof fn lemma_record_stream_fetches_listing(
    client: Client,
    repo: Seq<char>,
    collection: Seq<char>,
    cursor: Option<Seq<char>>,
)
    ensures
        page_call(
            client.get_call(
                "com.atproto.repo.listRecords"@,
                listing(repo, collection, UNBOUNDED, false, None),
            ),
            cursor,
        ) == client.get_call(
            "com.atproto.repo.listRecords"@,
            listing(repo, collection, UNBOUNDED, false, cursor),
        ),
{
}

/// The call by which a stream over notifications fetches the page with a
/// cursor is the call that reads that page of the notifications.
pub proof fn lemma_notification_stream_fetches_listing(
    client: Client,
    seen_at: Option<Seq<char>>,
    cursor: Option<Seq<char>>,
)
    ensures
        page_call(
            client.get_call(
                "app.bsky.notification.listNotifications"@,
                notification_listing(UNBOUNDED, None, seen_at),
            ),
            cursor,
        ) == client.get_call(
            "app.bsky.notification.listNotifications"@,
            notification_listing(UNBOUNDED, cursor, seen_at),
        ),
{
}

} // verus!
