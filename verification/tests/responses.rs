use bisky::atproto::answers::{
    did_of, followers_of, follows_of, likes_of, notifications_of, records_of, thread_of,
};
use bisky::atproto::xrpc::{interpret, succeeded, Response};
use bisky::errors::{ApiError, BiskyError, StreamError};
use bisky::lexicon::app::bsky::feed::{GetLikesOutput, GetPostThreadOutput, NotFoundPost, ThreadViewPostEnum};
use bisky::lexicon::app::bsky::graph::{GetFollowersOutput, GetFollowsOutput};
use bisky::lexicon::app::bsky::actor::ProfileView;
use bisky::lexicon::app::bsky::notification::ListNotificationsOutput;
use bisky::lexicon::com::atproto::identity::ResolveHandleOutput;
use bisky::lexicon::com::atproto::repo::{CreateRecordOutput, ListRecordsOutput, Record, StrongRef};

fn response<T>(status: u16, raw: &str, value: Option<T>, error: Option<ApiError>) -> Response<T> {
    Response { status, raw: raw.to_string(), value, error }
}

fn conflict() -> ApiError {
    ApiError { error: "InvalidSwap".to_string(), message: Some("Commit was at bafy2".to_string()) }
}

fn profile(did: &str) -> ProfileView {
    ProfileView {
        did: did.to_string(),
        handle: format!("{}.example", did),
        display_name: None,
        description: None,
        avatar: None,
        indexed_at: None,
    }
}

#[test]
fn success_statuses_are_the_two_hundreds() {
    assert!(!succeeded(199));
    assert!(succeeded(200));
    assert!(succeeded(204));
    assert!(succeeded(299));
    assert!(!succeeded(300));
    assert!(!succeeded(400));
    assert!(!succeeded(0));
    assert!(!succeeded(u16::MAX));
}

#[test]
fn success_with_matching_shape_returns_the_value() {
    let r = interpret(Ok(response(200, "{\"n\":7}", Some(7u32), None)));
    assert_eq!(r, Ok(7));
    let with_both = interpret(Ok(response(201, "{}", Some(8u32), Some(conflict()))));
    assert_eq!(with_both, Ok(8));
}

#[test]
fn success_with_other_shape_is_a_decode_error() {
    let r: Result<u32, BiskyError> = interpret(Ok(response(200, "{\"x\":true}", None, None)));
    assert_eq!(r, Err(BiskyError::DecodeError("{\"x\":true}".to_string())));
    let shaped_like_an_error: Result<u32, BiskyError> =
        interpret(Ok(response(200, "{\"error\":\"InvalidSwap\"}", None, Some(conflict()))));
    assert_eq!(
        shaped_like_an_error,
        Err(BiskyError::DecodeError("{\"error\":\"InvalidSwap\"}".to_string()))
    );
}

#[test]
fn rejection_with_error_object_is_a_remote_error() {
    let r: Result<u32, BiskyError> = interpret(Ok(response(400, "{}", None, Some(conflict()))));
    assert_eq!(
        r,
        Err(BiskyError::RemoteError {
            kind: "InvalidSwap".to_string(),
            message: Some("Commit was at bafy2".to_string()),
        })
    );
    let e = r.unwrap_err();
    assert_eq!(e.remote_kind(), Some("InvalidSwap"));
    assert!(!e.is_missing_session());

    let without_message: Result<u32, BiskyError> = interpret(Ok(response(
        401,
        "{}",
        Some(3),
        Some(ApiError { error: "ExpiredToken".to_string(), message: None }),
    )));
    assert_eq!(
        without_message,
        Err(BiskyError::RemoteError { kind: "ExpiredToken".to_string(), message: None })
    );
}

#[test]
fn rejection_with_other_body_is_a_transport_error() {
    let r: Result<u32, BiskyError> =
        interpret(Ok(response(502, "<html>Bad Gateway</html>", None, None)));
    assert_eq!(r, Err(BiskyError::TransportError("<html>Bad Gateway</html>".to_string())));
    assert_eq!(r.unwrap_err().remote_kind(), None);
    let value_is_ignored: Result<u32, BiskyError> = interpret(Ok(response(500, "9", Some(9), None)));
    assert_eq!(value_is_ignored, Err(BiskyError::TransportError("9".to_string())));
}

#[test]
fn failed_exchange_is_a_transport_error() {
    let r: Result<u32, BiskyError> = interpret(Err("connection reset by peer".to_string()));
    assert_eq!(r, Err(BiskyError::TransportError("connection reset by peer".to_string())));
}

#[test]
fn missing_session_is_told_apart() {
    assert!(BiskyError::MissingSession.is_missing_session());
    assert!(!BiskyError::TransportError("x".to_string()).is_missing_session());
    assert!(!BiskyError::DecodeError("x".to_string()).is_missing_session());
    assert_eq!(BiskyError::MissingSession.remote_kind(), None);
    assert_eq!(
        StreamError::Bisky(BiskyError::MissingSession).into_inner(),
        BiskyError::MissingSession
    );
}

#[test]
fn outputs_come_apart_into_what_callers_use() {
    let listed = ListRecordsOutput {
        cursor: Some("next".to_string()),
        records: vec![Record { uri: "u".to_string(), cid: "c".to_string(), value: 1u8 }],
    };
    assert_eq!(
        listed.into_page(),
        (
            vec![Record { uri: "u".to_string(), cid: "c".to_string(), value: 1u8 }],
            Some("next".to_string())
        )
    );
    let created = CreateRecordOutput { cid: "c".to_string(), uri: "u".to_string() };
    assert_eq!(created.into_strong_ref(), StrongRef { uri: "u".to_string(), cid: "c".to_string() });
    let notifications: ListNotificationsOutput<u8> =
        ListNotificationsOutput { cursor: Some("n".to_string()), notifications: vec![] };
    assert_eq!(notifications.into_page(), (vec![], Some("n".to_string())));
}

#[test]
fn operations_return_the_part_that_was_asked_for() {
    let listed = ListRecordsOutput {
        cursor: Some("next".to_string()),
        records: vec![Record { uri: "u".to_string(), cid: "c".to_string(), value: 1u8 }],
    };
    assert_eq!(
        records_of(Ok(response(200, "{}", Some(listed), None))),
        Ok(vec![Record { uri: "u".to_string(), cid: "c".to_string(), value: 1u8 }])
    );
    let notifications: ListNotificationsOutput<u8> =
        ListNotificationsOutput { cursor: None, notifications: vec![] };
    assert_eq!(notifications_of(Ok(response(200, "{}", Some(notifications), None))), Ok(vec![]));
    let likes = GetLikesOutput { uri: "u".to_string(), cid: None, likes: vec![], cursor: None };
    assert_eq!(likes_of(Ok(response(200, "{}", Some(likes), None))), Ok(vec![]));
    let follows = GetFollowsOutput {
        subject: profile("a"),
        cursor: None,
        follows: vec![profile("b"), profile("c")],
    };
    assert_eq!(
        follows_of(Ok(response(200, "{}", Some(follows), None))),
        Ok(vec![profile("b"), profile("c")])
    );
    let followers =
        GetFollowersOutput { subject: profile("a"), cursor: None, followers: vec![profile("d")] };
    assert_eq!(
        followers_of(Ok(response(200, "{}", Some(followers), None))),
        Ok(vec![profile("d")])
    );
    assert_eq!(
        did_of(Ok(response(
            200,
            "{}",
            Some(ResolveHandleOutput { did: "did:plc:bob".to_string() }),
            None
        ))),
        Ok("did:plc:bob".to_string())
    );
    let thread = GetPostThreadOutput {
        thread: ThreadViewPostEnum::NotFoundPost(NotFoundPost {
            uri: "at://gone".to_string(),
            not_found: true,
        }),
    };
    assert_eq!(
        thread_of(Ok(response(200, "{}", Some(thread), None))),
        Ok(ThreadViewPostEnum::NotFoundPost(NotFoundPost {
            uri: "at://gone".to_string(),
            not_found: true
        }))
    );
}

#[test]
fn operations_return_the_failure_of_their_call() {
    let down: Result<Vec<Record<u8>>, BiskyError> = records_of(Err("no route to host".to_string()));
    assert_eq!(down, Err(BiskyError::TransportError("no route to host".to_string())));
    assert_eq!(
        likes_of(Ok(response(400, "{}", None, Some(conflict())))),
        Err(BiskyError::RemoteError {
            kind: "InvalidSwap".to_string(),
            message: Some("Commit was at bafy2".to_string()),
        })
    );
    assert_eq!(
        did_of(Ok(response(200, "not json", None, None))),
        Err(BiskyError::DecodeError("not json".to_string()))
    );
    assert_eq!(
        thread_of(Ok(response(503, "unavailable", None, None))),
        Err(BiskyError::TransportError("unavailable".to_string()))
    );
    let unread: Result<Vec<bisky::lexicon::app::bsky::notification::Notification<u8>>, BiskyError> =
        notifications_of(Ok(response(200, "[]", None, None)));
    assert_eq!(unread, Err(BiskyError::DecodeError("[]".to_string())));
    assert_eq!(
        follows_of(Err("reset".to_string())),
        Err(BiskyError::TransportError("reset".to_string()))
    );
    assert_eq!(
        followers_of(Err("reset".to_string())),
        Err(BiskyError::TransportError("reset".to_string()))
    );
}
