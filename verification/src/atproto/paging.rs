//! The pagination engine: a paged listing as one forward-only sequence.
//!
//! The engine fetches nothing itself. Asked for the next item, it hands out
//! an item of the page it holds, or says which page it needs; whoever drives
//! it fetches that page and supplies it.

use crate::errors::{opt_text, BiskyError, FailureView, StreamError};
use crate::text::copy_optional;
use std::collections::VecDeque;
use vstd::prelude::*;

verus! {

/// Where a stream stands.
#[derive(Debug, Clone, Copy, PartialEq, Eq)]
pub enum Phase {
    /// No item is held and a cursor is queued for the next request: `None`
    /// before the first page.
    Primed,
    /// A page is held that had at least one item.
    Buffered,
    /// The last page is drained and named no further page.
    Exhausted,
    /// A page could not be fetched.
    Failed,
}

/// One page of a listing.
#[derive(Debug, PartialEq)]
pub struct Page<T> {
    pub items: Vec<T>,
    /// The token that fetches the next page; `None` after the last page.
    pub cursor: Option<String>,
}

/// A page as a sequence of items and the text of its cursor.
pub struct PageView<T> {
    pub items: Seq<T>,
    pub cursor: Option<Seq<char>>,
}

impl<T> View for Page<T> {
    type V = PageView<T>;

    open spec fn view(&self) -> PageView<T> {
        PageView { items: self.items@, cursor: opt_text(self.cursor) }
    }
}

/// What came of fetching a page.
pub type Fetched<T> = Result<PageView<T>, FailureView>;

/// What came of fetching a page, as texts.
pub open spec fn fetched_view<T>(fetched: Result<Page<T>, BiskyError>) -> Fetched<T> {
    match fetched {
        Ok(page) => Ok(page@),
        Err(e) => Err(e@),
    }
}

/// What a stream answers when it is asked for the next item.
#[derive(Debug, PartialEq)]
pub enum Poll<T> {
    /// The next item.
    Item(T),
    /// The page with this cursor is needed before there can be an item.
    Fetch(Option<String>),
    /// There are no further items.
    End,
}

/// An answer of a stream with its cursor as text.
pub enum PollView<T> {
    Item(T),
    Fetch(Option<Seq<char>>),
    End,
}

impl<T> View for Poll<T> {
    type V = PollView<T>;

    open spec fn view(&self) -> PollView<T> {
        match *self {
            Poll::Item(x) => PollView::Item(x),
            Poll::Fetch(c) => PollView::Fetch(opt_text(c)),
            Poll::End => PollView::End,
        }
    }
}

/// The state of a stream: the page it holds, how many of its items it has
/// handed out, and the cursor that the page came with.
pub struct StreamView<T> {
    pub phase: Phase,
    pub page: Seq<T>,
    pub offset: nat,
    pub cursor: Option<Seq<char>>,
}

impl<T> StreamView<T> {
    /// A stream before its first page.
    pub open spec fn opened() -> StreamView<T> {
        StreamView { phase: Phase::Primed, page: Seq::empty(), offset: 0, cursor: None }
    }

    /// What each phase holds.
    pub open spec fn wf(self) -> bool {
        &&& self.offset <= self.page.len()
        &&& self.phase is Primed ==> self.page.len() == 0
        &&& self.phase is Buffered ==> self.page.len() > 0
        &&& self.phase is Exhausted ==> self.offset == self.page.len() && self.cursor is None
    }

    /// Whether the stream needs a page before it can go on.
    pub open spec fn awaiting(self) -> bool {
        ||| self.phase is Primed
        ||| self.phase is Buffered && self.offset >= self.page.len() && self.cursor is Some
    }

    /// The answer to being asked for the next item, and the state after it.
    ///
    /// While the page has items left, the item at the offset goes out and the
    /// offset advances. A drained page whose cursor names a further page asks
    /// for that page, and so does a stream before its first item. A drained
    /// page without a cursor exhausts the stream. An exhausted or failed
    /// stream stays as it is.
    pub open spec fn polled(self) -> (StreamView<T>, PollView<T>) {
        match self.phase {
            Phase::Primed => (self, PollView::Fetch(self.cursor)),
            Phase::Buffered => if self.offset < self.page.len() {
                (
                    StreamView { offset: self.offset + 1, ..self },
                    PollView::Item(self.page[self.offset as int]),
                )
            } else {
                match self.cursor {
                    Some(c) => (self, PollView::Fetch(Some(c))),
                    None => (StreamView { phase: Phase::Exhausted, ..self }, PollView::End),
                }
            },
            Phase::Exhausted => (self, PollView::End),
            Phase::Failed => (self, PollView::End),
        }
    }

    /// The state after a page, or the failure to fetch one, is supplied.
    ///
    /// A stream that needs no page stays as it is. Otherwise a failure fails
    /// it; a page with items becomes the page held, from its first item; an
    /// empty page without a cursor exhausts it; and an empty page with a
    /// cursor only queues that cursor.
    pub open spec fn supplied(self, fetched: Fetched<T>) -> StreamView<T> {
        if !self.awaiting() {
            self
        } else {
            match fetched {
                Err(_) => StreamView { phase: Phase::Failed, ..self },
                Ok(page) => if page.items.len() > 0 {
                    StreamView {
                        phase: Phase::Buffered,
                        page: page.items,
                        offset: 0,
                        cursor: page.cursor,
                    }
                } else {
                    match page.cursor {
                        None => StreamView { phase: Phase::Exhausted, cursor: None, ..self },
                        Some(c) => StreamView { cursor: Some(c), ..self },
                    }
                },
            }
        }
    }

    /// What supplying reports: the failure, where one was supplied to a stream
    /// that needed a page.
    pub open spec fn reported(self, fetched: Fetched<T>) -> Option<FailureView> {
        match fetched {
            Err(e) if self.awaiting() => Some(e),
            _ => None,
        }
    }
}

/// A stream before its first page holds what its phase says, and neither
/// asking for the next item nor supplying a page, or a failure, breaks that.
pub proof fn lemma_phases_hold<T>(s: StreamView<T>, fetched: Fetched<T>)
    requires
        s.wf(),
    ensures
        StreamView::<T>::opened().wf(),
        s.polled().0.wf(),
        s.supplied(fetched).wf(),
{
}

/// A paged listing as a sequence of items.
pub struct PageStream<T> {
    phase: Phase,
    /// The items of the page that are still to go out, first in front.
    pending: VecDeque<T>,
    /// The items of the page that have gone out.
    drained: Ghost<Seq<T>>,
    cursor: Option<String>,
}

impl<T> View for PageStream<T> {
    type V = StreamView<T>;

    closed spec fn view(&self) -> StreamView<T> {
        StreamView {
            phase: self.phase,
            page: self.drained@ + self.pending@,
            offset: self.drained@.len(),
            cursor: opt_text(self.cursor),
        }
    }
}

/// Moves the items of a page into a queue, in their order.
fn into_queue<T>(items: Vec<T>) -> (r: VecDeque<T>)
    ensures
        r@ == items@,
{
    let mut items = items;
    let ghost all = items@;
    let mut queue: VecDeque<T> = VecDeque::new();
    while items.len() > 0
        invariant
            items@ + queue@ == all,
        decreases items.len(),
    {
        match items.pop() {
            Some(x) => {
                queue.push_front(x);
            },
            None => {},
        }
    }
    queue
}

impl<T> PageStream<T> {
    /// A stream before its first page.
    pub fn new() -> (r: PageStream<T>)
        ensures
            r@ == StreamView::<T>::opened(),
    {
        PageStream {
            phase: Phase::Primed,
            pending: VecDeque::new(),
            drained: Ghost(Seq::empty()),
            cursor: None,
        }
    }

    /// Where the stream stands.
    pub fn phase(&self) -> (r: Phase)
        ensures
            r == self@.phase,
    {
        self.phase
    }

    /// Whether the stream needs a page before it can go on.
    pub fn wants_page(&self) -> (r: bool)
        ensures
            r == self@.awaiting(),
    {
        match self.phase {
            Phase::Primed => true,
            Phase::Buffered => self.pending.len() == 0 && self.cursor.is_some(),
            _ => false,
        }
    }

    /// Asks for the next item.
    pub fn poll(&mut self) -> (r: Poll<T>)
        ensures
            (final(self)@, r@) == old(self)@.polled(),
            old(self)@.wf() ==> final(self)@.wf(),
    {
        match self.phase {
            Phase::Primed => Poll::Fetch(copy_optional(&self.cursor)),
            Phase::Buffered => {
                match self.pending.pop_front() {
                    Some(x) => {
                        self.drained = Ghost(self.drained@.push(x));
                        assert(self@.page =~= old(self)@.page);
                        Poll::Item(x)
                    },
                    None => {
                        match copy_optional(&self.cursor) {
                            Some(c) => Poll::Fetch(Some(c)),
                            None => {
                                self.phase = Phase::Exhausted;
                                Poll::End
                            },
                        }
                    },
                }
            },
            Phase::Exhausted => Poll::End,
            Phase::Failed => Poll::End,
        }
    }

    /// Supplies the page that the stream asked for, or the failure to fetch
    /// it. The failure comes back as the stream's error, once. What a stream
    /// did not ask for is dropped.
    pub fn supply(&mut self, fetched: Result<Page<T>, BiskyError>) -> (r: Result<(), StreamError>)
        ensures
            final(self)@ == old(self)@.supplied(fetched_view(fetched)),
            match r {
                Ok(_) => old(self)@.reported(fetched_view(fetched)) is None,
                Err(e) => old(self)@.reported(fetched_view(fetched)) == Some(e@),
            },
            old(self)@.wf() ==> final(self)@.wf(),
    {
        if !self.wants_page() {
            return Ok(());
        }
        match fetched {
            Err(e) => {
                self.phase = Phase::Failed;
                Err(StreamError::Bisky(e))
            },
            Ok(page) => {
                let Page { items, cursor } = page;
                if items.len() > 0 {
                    self.pending = into_queue(items);
                    self.drained = Ghost(Seq::empty());
                    self.cursor = cursor;
                    self.phase = Phase::Buffered;
                } else {
                    match cursor {
                        None => {
                            self.phase = Phase::Exhausted;
                            self.cursor = None;
                        },
                        Some(c) => {
                            self.cursor = Some(c);
                        },
                    }
                }
                Ok(())
            },
        }
    }
}

} // verus!
