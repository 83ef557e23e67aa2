use bisky::atproto::paging::{Page, PageStream, Phase, Poll};
use bisky::errors::{BiskyError, StreamError};

fn page_of(items: &[u32], cursor: Option<&str>) -> Page<u32> {
    Page { items: items.to_vec(), cursor: cursor.map(|c| c.to_string()) }
}

/// Serves a collection in pages of a given size; the cursor is the position
/// of the next page's first item.
fn serve(items: &[u32], size: usize, cursor: &Option<String>) -> Page<u32> {
    let from: usize = match cursor {
        Some(c) => c.parse().expect("a cursor that this server gave"),
        None => 0,
    };
    let upto = (from + size).min(items.len());
    Page {
        items: items[from..upto].to_vec(),
        cursor: if upto < items.len() { Some(upto.to_string()) } else { None },
    }
}

/// Drives a stream to its end against a served collection. Returns the items
/// that came out and the cursors that were asked for.
fn drain_collection(items: &[u32], size: usize) -> (Vec<u32>, Vec<Option<String>>, Phase) {
    let mut stream: PageStream<u32> = PageStream::new();
    let mut out = Vec::new();
    let mut asked = Vec::new();
    loop {
        match stream.poll() {
            Poll::Item(x) => out.push(x),
            Poll::Fetch(cursor) => {
                let page = serve(items, size, &cursor);
                asked.push(cursor);
                stream.supply(Ok(page)).expect("the page arrived");
            }
            Poll::End => break,
        }
    }
    (out, asked, stream.phase())
}

#[test]
fn new_stream_is_primed_and_asks_for_the_first_page() {
    let mut stream: PageStream<u32> = PageStream::new();
    assert_eq!(stream.phase(), Phase::Primed);
    assert!(stream.wants_page());
    assert_eq!(stream.poll(), Poll::Fetch(None));
    assert_eq!(stream.poll(), Poll::Fetch(None));
    assert_eq!(stream.phase(), Phase::Primed);
}

#[test]
fn empty_collection_yields_nothing_and_exhausts() {
    let mut stream: PageStream<u32> = PageStream::new();
    assert_eq!(stream.poll(), Poll::Fetch(None));
    assert_eq!(stream.supply(Ok(page_of(&[], None))), Ok(()));
    assert_eq!(stream.phase(), Phase::Exhausted);
    assert!(!stream.wants_page());
    assert_eq!(stream.poll(), Poll::End);
    assert_eq!(stream.poll(), Poll::End);
    assert_eq!(stream.phase(), Phase::Exhausted);

    let (items, asked, phase) = drain_collection(&[], 3);
    assert_eq!(items, Vec::<u32>::new());
    assert_eq!(asked, vec![None]);
    assert_eq!(phase, Phase::Exhausted);
}

#[test]
fn items_come_out_in_page_order() {
    let mut stream: PageStream<u32> = PageStream::new();
    assert_eq!(stream.poll(), Poll::Fetch(None));
    assert_eq!(stream.supply(Ok(page_of(&[10, 20], Some("a")))), Ok(()));
    assert_eq!(stream.phase(), Phase::Buffered);
    assert!(!stream.wants_page());
    assert_eq!(stream.poll(), Poll::Item(10));
    assert_eq!(stream.poll(), Poll::Item(20));
    assert!(stream.wants_page());
    assert_eq!(stream.poll(), Poll::Fetch(Some("a".to_string())));
    assert_eq!(stream.phase(), Phase::Buffered);
    assert_eq!(stream.supply(Ok(page_of(&[30], None))), Ok(()));
    assert_eq!(stream.poll(), Poll::Item(30));
    assert_eq!(stream.phase(), Phase::Buffered);
    assert!(!stream.wants_page());
    assert_eq!(stream.poll(), Poll::End);
    assert_eq!(stream.phase(), Phase::Exhausted);
    assert_eq!(stream.poll(), Poll::End);
}

#[test]
fn five_items_in_pages_of_two_take_three_fetches() {
    let (items, asked, phase) = drain_collection(&[1, 2, 3, 4, 5], 2);
    assert_eq!(items, vec![1, 2, 3, 4, 5]);
    assert_eq!(asked, vec![None, Some("2".to_string()), Some("4".to_string())]);
    assert_eq!(phase, Phase::Exhausted);
}

#[test]
fn every_collection_and_page_size_yields_all_items_in_ceiling_many_fetches() {
    for n in 1..=12usize {
        let items: Vec<u32> = (0..n as u32).map(|i| 100 + i).collect();
        for k in 1..=14usize {
            let (out, asked, phase) = drain_collection(&items, k);
            assert_eq!(out, items, "n = {}, k = {}", n, k);
            assert_eq!(asked.len(), (n + k - 1) / k, "n = {}, k = {}", n, k);
            assert_eq!(asked[0], None);
            for (i, cursor) in asked.iter().enumerate().skip(1) {
                assert_eq!(cursor, &Some((i * k).to_string()));
            }
            assert_eq!(phase, Phase::Exhausted);
        }
    }
}

#[test]
fn failure_on_second_page_ends_the_stream() {
    let mut stream: PageStream<u32> = PageStream::new();
    let mut out = Vec::new();
    assert_eq!(stream.poll(), Poll::Fetch(None));
    stream.supply(Ok(page_of(&[1, 2], Some("second")))).unwrap();
    let failure = loop {
        match stream.poll() {
            Poll::Item(x) => out.push(x),
            Poll::Fetch(cursor) => {
                assert_eq!(cursor, Some("second".to_string()));
                let failed = stream.supply(Err(BiskyError::TransportError("timed out".to_string())));
                break failed.unwrap_err();
            }
            Poll::End => panic!("the stream ended before its second page"),
        }
    };
    assert_eq!(out, vec![1, 2]);
    assert_eq!(failure, StreamError::Bisky(BiskyError::TransportError("timed out".to_string())));
    assert_eq!(stream.phase(), Phase::Failed);
    assert!(!stream.wants_page());
    assert_eq!(stream.poll(), Poll::End);
    assert_eq!(stream.supply(Ok(page_of(&[3], None))), Ok(()));
    assert_eq!(stream.phase(), Phase::Failed);
    assert_eq!(stream.poll(), Poll::End);
}

#[test]
fn failure_on_first_page_ends_the_stream() {
    let mut stream: PageStream<u32> = PageStream::new();
    let refused = BiskyError::RemoteError { kind: "RateLimitExceeded".to_string(), message: None };
    assert_eq!(stream.supply(Err(refused.clone())), Err(StreamError::Bisky(refused)));
    assert_eq!(stream.phase(), Phase::Failed);
    assert_eq!(stream.poll(), Poll::End);
}

#[test]
fn what_was_not_asked_for_is_dropped() {
    let mut stream: PageStream<u32> = PageStream::new();
    stream.supply(Ok(page_of(&[1, 2], Some("second")))).unwrap();
    assert_eq!(stream.supply(Ok(page_of(&[9, 9], None))), Ok(()));
    assert_eq!(stream.supply(Err(BiskyError::MissingSession)), Ok(()));
    assert_eq!(stream.phase(), Phase::Buffered);
    assert_eq!(stream.poll(), Poll::Item(1));
    assert_eq!(stream.poll(), Poll::Item(2));
    assert_eq!(stream.poll(), Poll::Fetch(Some("second".to_string())));

    let mut done: PageStream<u32> = PageStream::new();
    done.supply(Ok(page_of(&[], None))).unwrap();
    assert_eq!(done.supply(Ok(page_of(&[5], None))), Ok(()));
    assert_eq!(done.phase(), Phase::Exhausted);
    assert_eq!(done.poll(), Poll::End);
}

#[test]
fn empty_page_with_a_cursor_only_queues_the_cursor() {
    let mut stream: PageStream<u32> = PageStream::new();
    assert_eq!(stream.supply(Ok(page_of(&[], Some("later")))), Ok(()));
    assert_eq!(stream.phase(), Phase::Primed);
    assert_eq!(stream.poll(), Poll::Fetch(Some("later".to_string())));
    stream.supply(Ok(page_of(&[4], Some("more")))).unwrap();
    assert_eq!(stream.poll(), Poll::Item(4));
    assert_eq!(stream.supply(Ok(page_of(&[], Some("even more")))), Ok(()));
    assert_eq!(stream.phase(), Phase::Buffered);
    assert_eq!(stream.poll(), Poll::Fetch(Some("even more".to_string())));
    assert_eq!(stream.supply(Ok(page_of(&[], None))), Ok(()));
    assert_eq!(stream.phase(), Phase::Exhausted);
    assert_eq!(stream.poll(), Poll::End);
}
