//! Whole runs of a stream: what comes out when a stream is polled to its end
//! while its requests are answered from a given sequence of replies.

use crate::atproto::paging::{Fetched, PageView, PollView, StreamView};
use crate::errors::FailureView;
use vstd::prelude::*;

verus! {

/// What a run produced.
pub struct Run<T> {
    /// The items that came out, in the order in which they came.
    pub items: Seq<T>,
    /// The cursor of each fetch that was answered, in the order of the fetches.
    pub asked: Seq<Option<Seq<char>>>,
    /// The failure that ended the run, if one did.
    pub failure: Option<FailureView>,
    /// The state in which the run left the stream.
    pub end: StreamView<T>,
}

/// Polls a stream until it ends, fails, or asks for a page when no reply is
/// left; each request for a page takes the next reply.
pub open spec fn run<T>(s: StreamView<T>, replies: Seq<Fetched<T>>) -> Run<T>
    decreases replies.len(), s.page.len() - s.offset,
{
    let step = s.polled();
    match step.1 {
        PollView::Item(x) => {
            let rest = run(step.0, replies);
            Run { items: seq![x] + rest.items, ..rest }
        },
        PollView::Fetch(cursor) => {
            if replies.len() == 0 {
                Run { items: Seq::empty(), asked: Seq::empty(), failure: None, end: s }
            } else {
                let after = s.supplied(replies[0]);
                match replies[0] {
                    Err(e) => Run {
                        items: Seq::empty(),
                        asked: seq![cursor],
                        failure: Some(e),
                        end: after,
                    },
                    Ok(_) => {
                        let rest = run(after, replies.drop_first());
                        Run { asked: seq![cursor] + rest.asked, ..rest }
                    },
                }
            }
        },
        PollView::End => Run {
            items: Seq::empty(),
            asked: Seq::empty(),
            failure: None,
            end: step.0,
        },
    }
}

/// The cursor that a reply carries.
pub open spec fn cursor_of<T>(reply: Fetched<T>) -> Option<Seq<char>> {
    match reply {
        Ok(page) => page.cursor,
        Err(_) => None,
    }
}

/// The items that a reply carries.
pub open spec fn items_of<T>(reply: Fetched<T>) -> Seq<T> {
    match reply {
        Ok(page) => page.items,
        Err(_) => Seq::empty(),
    }
}

/// The items of all replies, in order.
pub open spec fn gathered<T>(replies: Seq<Fetched<T>>) -> Seq<T>
    decreases replies.len(),
{
    if replies.len() == 0 {
        Seq::empty()
    } else {
        items_of(replies[0]) + gathered(replies.drop_first())
    }
}

/// Replies that make up a whole listing: every page arrives, every page but
/// the last names a further page, and the last names none.
pub open spec fn complete<T>(replies: Seq<Fetched<T>>) -> bool {
    &&& replies.len() > 0
    &&& forall|i: int| 0 <= i < replies.len() ==> (#[trigger] replies[i]) is Ok
    &&& forall|i: int| 0 <= i < replies.len() - 1 ==> cursor_of(#[trigger] replies[i]) is Some
    &&& cursor_of(replies[replies.len() - 1]) is None
}

/// What a run over a whole listing produces.
pub open spec fn whole<T>(r: Run<T>, first: Option<Seq<char>>, replies: Seq<Fetched<T>>) -> bool {
    &&& r.items == gathered(replies)
    &&& r.failure is None
    &&& r.end.phase is Exhausted
    &&& r.asked.len() == replies.len()
    &&& r.asked[0] == first
    &&& forall|i: int| 0 < i < replies.len() ==> #[trigger] r.asked[i] == cursor_of(replies[i - 1])
}

/// The pages that a server of a given page size gives for a collection, from
/// a position on. Each page but the last carries the token of the position
/// that follows it.
pub open spec fn served<T>(
    items: Seq<T>,
    size: nat,
    token: spec_fn(nat) -> Seq<char>,
    from: nat,
) -> Seq<Fetched<T>>
    decreases items.len() - from,
{
    if size == 0 || from >= items.len() {
        Seq::empty()
    } else {
        let upto = if from + size < items.len() {
            from + size
        } else {
            items.len()
        };
        seq![
            Ok(
                PageView {
                    items: items.subrange(from as int, upto as int),
                    cursor: if upto < items.len() {
                        Some(token(upto))
                    } else {
                        None
                    },
                },
            ),
        ] + served(items, size, token, upto)
    }
}

/// The number of pages of a given size that hold a number of items: the
/// quotient, rounded up.
pub open spec fn pages(count: nat, size: nat) -> nat {
    if size == 0 {
        0
    } else {
        ((count + size - 1) / (size as int)) as nat
    }
}

/// A held page is handed out item by item, in order, before anything else
/// happens.
pub proof fn lemma_page_drains<T>(s: StreamView<T>, replies: Seq<Fetched<T>>)
    requires
        s.phase is Buffered,
        s.offset <= s.page.len(),
    ensures
        ({
            let drained = StreamView { offset: s.page.len(), ..s };
            let rest = run(drained, replies);
            run(s, replies) == (Run { items: s.page.skip(s.offset as int) + rest.items, ..rest })
        }),
    decreases s.page.len() - s.offset,
{
    if s.offset < s.page.len() {
        let rest = run(StreamView { offset: s.page.len(), ..s }, replies);
        lemma_page_drains(StreamView { offset: s.offset + 1, ..s }, replies);
        assert(seq![s.page[s.offset as int]] + (s.page.skip(s.offset as int + 1) + rest.items)
            =~= s.page.skip(s.offset as int) + rest.items);
    }
}

/// A stream that stands before a whole listing hands out every item of every
/// page, in order, with one fetch for each page; each fetch after the first
/// carries the cursor of the page before it; and the stream ends exhausted.
pub proof fn lemma_whole_listing<T>(s: StreamView<T>, replies: Seq<Fetched<T>>)
    requires
        s.awaiting(),
        complete(replies),
    ensures
        whole(run(s, replies), s.cursor, replies),
    decreases replies.len(),
{
    let rest = replies.drop_first();
    let page = replies[0]->Ok_0;
    let after = s.supplied(replies[0]);
    let r = run(s, replies);
    if page.items.len() > 0 {
        lemma_page_drains(after, rest);
    }
    if replies.len() == 1 {
        assert(gathered(rest) =~= Seq::<T>::empty());
        assert(r.items =~= gathered(replies));
    } else {
        // What is left after the first page is a whole listing again, and
        // the stream stands before it once the first page is handed out.
        assert(complete(rest)) by {
            assert forall|i: int| 0 <= i < rest.len() implies (#[trigger] rest[i]) is Ok
                && rest[i] == replies[i + 1] by {}
        }
        let ready = if page.items.len() > 0 {
            StreamView { offset: after.page.len(), ..after }
        } else {
            after
        };
        lemma_whole_listing(ready, rest);
        assert(run(after, rest).items =~= page.items + gathered(rest));
        assert forall|i: int| 0 < i < replies.len() implies #[trigger] r.asked[i] == cursor_of(
            replies[i - 1],
        ) by {
            assert(r.asked[i] == run(ready, rest).asked[i - 1]);
        }
    }
}

/// The pages that a server gives make up a whole listing of the items from
/// the position on, and there are as many pages as the rounded-up quotient of
/// the number of those items and the page size.
pub proof fn lemma_served_is_whole<T>(
    items: Seq<T>,
    size: nat,
    token: spec_fn(nat) -> Seq<char>,
    from: nat,
)
    requires
        size > 0,
        from < items.len(),
    ensures
        complete(served(items, size, token, from)),
        gathered(served(items, size, token, from)) == items.skip(from as int),
        served(items, size, token, from).len() == pages((items.len() - from) as nat, size),
    decreases items.len() - from,
{
    let all = served(items, size, token, from);
    let upto = if from + size < items.len() {
        from + size
    } else {
        items.len()
    };
    let tail = served(items, size, token, upto);
    let left = (items.len() - from) as nat;
    assert(all.drop_first() =~= tail);
    if upto < items.len() {
        lemma_served_is_whole(items, size, token, upto);
        assert forall|i: int| 0 < i < all.len() implies #[trigger] all[i] == tail[i - 1] by {}
        assert((left + size - 1) / (size as int) == 1 + (left - size + size - 1) / (size as int))
            by (nonlinear_arith)
            requires
                size > 0,
                left > size,
        ;
    } else {
        assert(gathered(tail) =~= Seq::<T>::empty());
        assert((left + size - 1) / (size as int) == 1) by (nonlinear_arith)
            requires
                size > 0,
                0 < left <= size,
        ;
    }
}

/// A stream opened over a collection of at least one item, against a server
/// of any page size above zero, hands out exactly the items of the
/// collection, in the server's order, with as many fetches as the rounded-up
/// quotient of the two numbers. The first fetch carries no cursor and each
/// later one the cursor of the page before it, and the stream ends exhausted.
pub proof fn lemma_stream_yields_collection<T>(
    items: Seq<T>,
    size: nat,
    token: spec_fn(nat) -> Seq<char>,
)
    requires
        items.len() > 0,
        size > 0,
    ensures
        ({
            let replies = served(items, size, token, 0);
            let r = run(StreamView::<T>::opened(), replies);
            &&& r.items == items
            &&& r.asked.len() == pages(items.len(), size)
            &&& r.asked[0] is None
            &&& forall|i: int|
                0 < i < r.asked.len() ==> #[trigger] r.asked[i] == cursor_of(replies[i - 1])
            &&& r.failure is None
            &&& r.end.phase is Exhausted
        }),
{
    lemma_served_is_whole(items, size, token, 0);
    lemma_whole_listing(StreamView::<T>::opened(), served(items, size, token, 0));
}

/// A stream opened over an empty collection hands out nothing and ends
/// exhausted, without a failure, after its one fetch; replies that might
/// follow are not taken.
pub proof fn lemma_empty_collection<T>(more: Seq<Fetched<T>>)
    ensures
        ({
            let empty = Ok(PageView { items: Seq::<T>::empty(), cursor: None });
            let r = run(StreamView::<T>::opened(), seq![empty] + more);
            &&& r.items == Seq::<T>::empty()
            &&& r.asked == seq![None::<Seq<char>>]
            &&& r.failure is None
            &&& r.end.phase is Exhausted
        }),
{
    let empty: Fetched<T> = Ok(PageView { items: Seq::<T>::empty(), cursor: None });
    let replies = seq![empty] + more;
    let after = StreamView::<T>::opened().supplied(replies[0]);
    assert(run(after, replies.drop_first()).items =~= Seq::<T>::empty());
}

/// A failed stream hands out nothing further, asks for nothing, and stays
/// failed, whatever replies are at hand.
pub proof fn lemma_failed_stream_is_silent<T>(s: StreamView<T>, replies: Seq<Fetched<T>>)
    requires
        s.phase is Failed,
    ensures
        run(s, replies) == (Run {
            items: Seq::<T>::empty(),
            asked: Seq::<Option<Seq<char>>>::empty(),
            failure: None,
            end: s,
        }),
        forall|fetched: Fetched<T>| #[trigger] s.supplied(fetched) == s,
{
}

/// A stream whose first page arrives and whose second fetch fails hands out
/// exactly the items of the first page and then ends with that failure. Its
/// second fetch carried the first page's cursor. It stays failed: replies
/// that might follow are not taken.
pub proof fn lemma_failure_on_second_page<T>(
    first: PageView<T>,
    failure: FailureView,
    more: Seq<Fetched<T>>,
)
    requires
        first.cursor is Some,
    ensures
        ({
            let r = run(StreamView::<T>::opened(), seq![Ok(first), Err(failure)] + more);
            &&& r.items == first.items
            &&& r.asked == seq![None, first.cursor]
            &&& r.failure == Some(failure)
            &&& r.end.phase is Failed
        }),
{
    let replies: Seq<Fetched<T>> = seq![Ok(first), Err(failure)] + more;
    let rest = replies.drop_first();
    let after = StreamView::<T>::opened().supplied(replies[0]);
    // Once the first page is handed out, the stream asks for the second,
    // and the failure is the answer.
    let ready = if first.items.len() > 0 {
        StreamView { offset: after.page.len(), ..after }
    } else {
        after
    };
    if first.items.len() > 0 {
        lemma_page_drains(after, rest);
    }
    assert(run(ready, rest).failure == Some(failure));
    assert(run(after, rest).items =~= first.items);
}

} // verus!
