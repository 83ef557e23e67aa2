use bisky::atproto::params::UNBOUNDED;
use bisky::atproto::xrpc::{GetRequest, Verb};
use bisky::atproto::Client;
use bisky::bluesky::Bluesky;
use bisky::errors::BiskyError;
use bisky::lexicon::app::bsky::feed::Post;
use bisky::lexicon::app::bsky::notification::UpdateSeen;
use bisky::lexicon::com::atproto::repo::{CreateRecord, DeleteRecord, PutRecord};
use bisky::lexicon::com::atproto::server::Session;
use bisky::time::Timestamp;

fn signed_in() -> Client {
    let mut client = Client::new("https://pds.example".to_string());
    client.set_session(Session {
        did: "did:plc:alice".to_string(),
        handle: "alice.example".to_string(),
        access_jwt: "token-a".to_string(),
        refresh_jwt: "token-r".to_string(),
    });
    client
}

fn signed_out() -> Client {
    Client::new("https://pds.example".to_string())
}

fn pairs(items: &[(&str, &str)]) -> Vec<(String, String)> {
    items.iter().map(|(k, v)| (k.to_string(), v.to_string())).collect()
}

fn get(method: &str, query: &[(&str, &str)]) -> GetRequest {
    GetRequest {
        address: format!("https://pds.example/xrpc/{}", method),
        query: pairs(query),
        authorization: Some("Bearer token-a".to_string()),
    }
}

fn hello(text: &str) -> Post {
    Post {
        created_at: Timestamp { secs: 1_700_000_000, nanos: 0 },
        rust_type: Some("app.bsky.feed.post".to_string()),
        text: text.to_string(),
        embed: None,
        reply: None,
        record: None,
    }
}

#[test]
fn dispatcher_attaches_the_credential_only_with_a_session() {
    let with = signed_in().xrpc_get("app.bsky.actor.getProfile", pairs(&[("actor", "bob")]));
    assert_eq!(with, get("app.bsky.actor.getProfile", &[("actor", "bob")]));
    assert_eq!(with.verb(), Verb::Get);
    assert_eq!(with.headers(), pairs(&[("Authorization", "Bearer token-a")]));

    let without = signed_out().xrpc_get("app.bsky.actor.getProfile", pairs(&[("actor", "bob")]));
    assert_eq!(without.address, "https://pds.example/xrpc/app.bsky.actor.getProfile");
    assert_eq!(without.authorization, None);
    assert_eq!(without.headers(), pairs(&[]));
}

#[test]
fn dispatcher_posts_json() {
    let call = signed_in().xrpc_post("com.example.method", 42u32);
    assert_eq!(call.address, "https://pds.example/xrpc/com.example.method");
    assert_eq!(call.authorization, Some("Bearer token-a".to_string()));
    assert_eq!(call.content_type, "application/json");
    assert_eq!(call.body, 42);
    assert_eq!(call.verb(), Verb::Post);
    assert_eq!(
        call.headers(),
        pairs(&[("Authorization", "Bearer token-a"), ("Content-Type", "application/json")])
    );
    let anonymous = signed_out().xrpc_post("com.example.method", 42u32);
    assert_eq!(anonymous.authorization, None);
    assert_eq!(anonymous.headers(), pairs(&[("Content-Type", "application/json")]));
}

#[test]
fn create_record_carries_its_input() {
    let client = signed_in();
    let call = client
        .repo_create_record(
            "did:plc:alice",
            "app.bsky.feed.post",
            Some("3kabc"),
            Some(true),
            Some("bafycommit"),
            hello("hello"),
        )
        .unwrap();
    assert_eq!(call.address, "https://pds.example/xrpc/com.atproto.repo.createRecord");
    assert_eq!(call.authorization, Some("Bearer token-a".to_string()));
    assert_eq!(call.content_type, "application/json");
    assert_eq!(
        call.body,
        CreateRecord {
            repo: "did:plc:alice",
            collection: "app.bsky.feed.post",
            record: hello("hello"),
            rkey: Some("3kabc"),
            validate: Some(true),
            swap_commit: Some("bafycommit"),
        }
    );
}

#[test]
fn put_record_carries_its_input() {
    let client = signed_in();
    let call = client
        .repo_put_record(
            "did:plc:alice",
            "app.bsky.actor.profile",
            "self",
            Some("bafyrecord"),
            Some("bafycommit"),
            Some(false),
            "a profile".to_string(),
        )
        .unwrap();
    assert_eq!(call.address, "https://pds.example/xrpc/com.atproto.repo.putRecord");
    assert_eq!(call.content_type, "application/json");
    assert_eq!(
        call.body,
        PutRecord {
            repo: "did:plc:alice",
            collection: "app.bsky.actor.profile",
            record: "a profile".to_string(),
            rkey: "self",
            validate: Some(false),
            swap_record: Some("bafyrecord"),
            swap_commit: Some("bafycommit"),
        }
    );
}

#[test]
fn delete_record_carries_its_input() {
    let client = signed_in();
    let call = client
        .repo_delete_record("did:plc:alice", "app.bsky.feed.post", "3kabc", Some("r"), None)
        .unwrap();
    assert_eq!(call.address, "https://pds.example/xrpc/com.atproto.repo.deleteRecord");
    assert_eq!(
        call.body,
        DeleteRecord {
            repo: "did:plc:alice",
            collection: "app.bsky.feed.post",
            rkey: "3kabc",
            swap_record: Some("r"),
            swap_commit: None,
        }
    );
}

#[test]
fn get_record_names_the_record() {
    let call = signed_in().repo_get_record("did:plc:bob", "app.bsky.feed.post", "3kxyz").unwrap();
    assert_eq!(
        call,
        get(
            "com.atproto.repo.getRecord",
            &[("repo", "did:plc:bob"), ("collection", "app.bsky.feed.post"), ("rkey", "3kxyz")]
        )
    );
}

#[test]
fn list_records_sends_limit_reverse_and_cursor() {
    let client = signed_in();
    let first = client.repo_list_records("did:plc:bob", "posts", 2, false, None).unwrap();
    assert_eq!(
        first,
        get(
            "com.atproto.repo.listRecords",
            &[("repo", "did:plc:bob"), ("collection", "posts"), ("limit", "2"), ("reverse", "false")]
        )
    );
    let next = client.repo_list_records("did:plc:bob", "posts", 100, true, Some("tok/2")).unwrap();
    assert_eq!(
        next,
        get(
            "com.atproto.repo.listRecords",
            &[
                ("repo", "did:plc:bob"),
                ("collection", "posts"),
                ("limit", "100"),
                ("reverse", "true"),
                ("cursor", "tok/2")
            ]
        )
    );
}

#[test]
fn unbounded_limit_sends_no_limit() {
    let call = signed_in().repo_list_records("did:plc:bob", "posts", UNBOUNDED, false, None).unwrap();
    assert_eq!(UNBOUNDED, usize::MAX);
    assert_eq!(
        call,
        get(
            "com.atproto.repo.listRecords",
            &[("repo", "did:plc:bob"), ("collection", "posts"), ("reverse", "false")]
        )
    );
    let zero = signed_in().repo_list_records("did:plc:bob", "posts", 0, false, None).unwrap();
    assert_eq!(zero.query[2], ("limit".to_string(), "0".to_string()));
}

#[test]
fn upload_blob_sends_raw_bytes_under_the_given_media_type() {
    let call = signed_in().repo_upload_blob(&[0x89, b'P', b'N', b'G'], "image/png").unwrap();
    assert_eq!(call.address, "https://pds.example/xrpc/com.atproto.repo.uploadBlob");
    assert_eq!(call.authorization, Some("Bearer token-a".to_string()));
    assert_eq!(call.content_type, "image/png");
    assert_eq!(call.body.blob, vec![0x89, b'P', b'N', b'G']);
    assert_eq!(
        call.headers(),
        pairs(&[("Authorization", "Bearer token-a"), ("Content-Type", "image/png")])
    );
}

#[test]
fn resolve_handle_needs_no_session() {
    let anonymous = signed_out().repo_resolve_handle("bob.example");
    assert_eq!(anonymous.address, "https://pds.example/xrpc/com.atproto.identity.resolveHandle");
    assert_eq!(anonymous.query, pairs(&[("handle", "bob.example")]));
    assert_eq!(anonymous.authorization, None);
    let known = signed_in().repo_resolve_handle("bob.example");
    assert_eq!(known, get("com.atproto.identity.resolveHandle", &[("handle", "bob.example")]));
}

#[test]
fn bsky_operations_name_their_methods_and_parameters() {
    let client = signed_in();
    assert_eq!(
        client.bsky_get_profile("bob.example").unwrap(),
        get("app.bsky.actor.getProfile", &[("actor", "bob.example")])
    );
    assert_eq!(
        client.bsky_get_post_thread("at://x/y/z").unwrap(),
        get("app.bsky.feed.getPostThread", &[("uri", "at://x/y/z")])
    );
    assert_eq!(
        client.bsky_get_likes("at://x/y/z", 10, Some("c1")).unwrap(),
        get("app.bsky.feed.getLikes", &[("uri", "at://x/y/z"), ("limit", "10"), ("cursor", "c1")])
    );
    assert_eq!(
        client.bsky_get_follows("did:plc:bob", 25, None).unwrap(),
        get("app.bsky.graph.getFollows", &[("actor", "did:plc:bob"), ("limit", "25")])
    );
    assert_eq!(
        client.bsky_get_followers("did:plc:bob", UNBOUNDED, Some("c2")).unwrap(),
        get("app.bsky.graph.getFollowers", &[("actor", "did:plc:bob"), ("cursor", "c2")])
    );
    assert_eq!(
        client.bsky_get_notification_count(None).unwrap(),
        get("app.bsky.notification.getUnreadCount", &[])
    );
    assert_eq!(
        client.bsky_get_notification_count(Some("2023-01-01T00:00:00Z")).unwrap(),
        get("app.bsky.notification.getUnreadCount", &[("seenAt", "2023-01-01T00:00:00Z")])
    );
    assert_eq!(
        client.bsky_list_notifications(30, Some("c3"), Some("2023-01-01T00:00:00Z")).unwrap(),
        get(
            "app.bsky.notification.listNotifications",
            &[("limit", "30"), ("seenAt", "2023-01-01T00:00:00Z"), ("cursor", "c3")]
        )
    );
}

#[test]
fn update_seen_at_a_given_instant() {
    let at = Timestamp { secs: 1_700_000_000, nanos: 5 };
    let call = signed_in().bsky_update_seen(at).unwrap();
    assert_eq!(call.address, "https://pds.example/xrpc/app.bsky.notification.updateSeen");
    assert_eq!(call.content_type, "application/json");
    assert_eq!(call.body, UpdateSeen { seen_at: at });
}

#[test]
fn every_operation_fails_without_a_session() {
    let client = signed_out();
    let missing = BiskyError::MissingSession;
    assert_eq!(
        client.repo_create_record("a", "b", None, None, None, 1u8).unwrap_err(),
        missing
    );
    assert_eq!(
        client.repo_put_record("a", "b", "c", None, None, None, 1u8).unwrap_err(),
        missing
    );
    assert_eq!(client.repo_get_record("a", "b", "c").unwrap_err(), missing);
    assert_eq!(client.repo_delete_record("a", "b", "c", None, None).unwrap_err(), missing);
    assert_eq!(client.repo_list_records("a", "b", 1, false, None).unwrap_err(), missing);
    assert_eq!(client.repo_upload_blob(&[1, 2], "image/png").unwrap_err(), missing);
    assert_eq!(client.bsky_get_profile("a").unwrap_err(), missing);
    assert_eq!(client.bsky_get_post_thread("a").unwrap_err(), missing);
    assert_eq!(client.bsky_get_likes("a", 1, None).unwrap_err(), missing);
    assert_eq!(client.bsky_get_follows("a", 1, None).unwrap_err(), missing);
    assert_eq!(client.bsky_get_followers("a", 1, None).unwrap_err(), missing);
    assert_eq!(client.bsky_get_notification_count(None).unwrap_err(), missing);
    assert_eq!(client.bsky_list_notifications(1, None, None).unwrap_err(), missing);
    assert_eq!(
        client.bsky_update_seen(Timestamp { secs: 0, nanos: 0 }).unwrap_err(),
        missing
    );
    assert!(client.repo_stream_records::<u8>("a", "b").is_err());
    assert!(client.bsky_stream_notifications::<u8>(None).is_err());
}

#[test]
fn me_handle_prepares_calls_on_its_own_repository() {
    let mut bluesky = Bluesky::new(signed_in());
    let me = bluesky.me().unwrap();

    let post = me.post(hello("hello")).unwrap();
    assert_eq!(post.address, "https://pds.example/xrpc/com.atproto.repo.createRecord");
    assert_eq!(
        post.body,
        CreateRecord {
            repo: "did:plc:alice",
            collection: "app.bsky.feed.post",
            record: hello("hello"),
            rkey: None,
            validate: None,
            swap_commit: None,
        }
    );

    let created = me.create_record("posts", Some("k1"), Some(true), Some("c0"), 7u8).unwrap();
    assert_eq!(
        created.body,
        CreateRecord {
            repo: "did:plc:alice",
            collection: "posts",
            record: 7u8,
            rkey: Some("k1"),
            validate: Some(true),
            swap_commit: Some("c0"),
        }
    );

    let put = me.put_record("posts", "k1", Some(false), Some("commit"), Some("record"), 8u8).unwrap();
    assert_eq!(put.address, "https://pds.example/xrpc/com.atproto.repo.putRecord");
    assert_eq!(
        put.body,
        PutRecord {
            repo: "did:plc:alice",
            collection: "posts",
            record: 8u8,
            rkey: "k1",
            validate: Some(false),
            swap_record: Some("record"),
            swap_commit: Some("commit"),
        }
    );

    let deleted = me.delete_record("posts", "k1", Some("commit"), Some("record")).unwrap();
    assert_eq!(deleted.address, "https://pds.example/xrpc/com.atproto.repo.deleteRecord");
    assert_eq!(
        deleted.body,
        DeleteRecord {
            repo: "did:plc:alice",
            collection: "posts",
            rkey: "k1",
            swap_record: Some("record"),
            swap_commit: Some("commit"),
        }
    );

    assert_eq!(
        me.get_notification_count(Some("2024-02-03T04:05:06Z")).unwrap(),
        get("app.bsky.notification.getUnreadCount", &[("seenAt", "2024-02-03T04:05:06Z")])
    );
    assert_eq!(
        me.list_notifications(20).unwrap(),
        get("app.bsky.notification.listNotifications", &[("limit", "20")])
    );
    assert_eq!(
        me.get_post_thread("at://a/b/c").unwrap(),
        get("app.bsky.feed.getPostThread", &[("uri", "at://a/b/c")])
    );
    let blob = me.upload_blob(b"GIF89a", "image/gif").unwrap();
    assert_eq!(blob.content_type, "image/gif");
    assert_eq!(blob.body.blob, b"GIF89a".to_vec());
}

#[test]
fn update_seen_reads_the_clock() {
    let mut bluesky = Bluesky::new(signed_in());
    let me = bluesky.me().unwrap();
    let call = me.update_seen().unwrap();
    assert_eq!(call.address, "https://pds.example/xrpc/app.bsky.notification.updateSeen");
    assert_eq!(call.authorization, Some("Bearer token-a".to_string()));
    assert_eq!(call.content_type, "application/json");
    assert!(call.body.seen_at.secs > 1_600_000_000);
    assert!(call.body.seen_at.nanos < 1_000_000_000);
}

#[test]
fn user_handle_prepares_calls_about_its_actor() {
    let mut bluesky = Bluesky::new(signed_in());
    let user = bluesky.user("did:plc:bob").unwrap();
    assert_eq!(
        user.get_profile().unwrap(),
        get("app.bsky.actor.getProfile", &[("actor", "did:plc:bob")])
    );
    assert_eq!(
        user.get_profile_other("carol.example").unwrap(),
        get("app.bsky.actor.getProfile", &[("actor", "carol.example")])
    );
    assert_eq!(
        user.resolve_handle("carol.example").unwrap(),
        get("com.atproto.identity.resolveHandle", &[("handle", "carol.example")])
    );
    assert_eq!(
        user.get_likes("at://a/b/c", 5, None).unwrap(),
        get("app.bsky.feed.getLikes", &[("uri", "at://a/b/c"), ("limit", "5")])
    );
    assert_eq!(
        user.get_follows(5, Some("n")).unwrap(),
        get("app.bsky.graph.getFollows", &[("actor", "did:plc:bob"), ("limit", "5"), ("cursor", "n")])
    );
    assert_eq!(
        user.get_followers(6, None).unwrap(),
        get("app.bsky.graph.getFollowers", &[("actor", "did:plc:bob"), ("limit", "6")])
    );
    assert_eq!(
        user.get_record("did:plc:dan", "posts", "k9").unwrap(),
        get(
            "com.atproto.repo.getRecord",
            &[("repo", "did:plc:dan"), ("collection", "posts"), ("rkey", "k9")]
        )
    );
    assert_eq!(
        user.list_posts().unwrap(),
        get(
            "com.atproto.repo.listRecords",
            &[("repo", "did:plc:bob"), ("collection", "app.bsky.feed.post"), ("reverse", "false")]
        )
    );
    assert_eq!(
        user.list_records("likes", "did:plc:dan").unwrap(),
        get(
            "com.atproto.repo.listRecords",
            &[("repo", "did:plc:dan"), ("collection", "likes"), ("reverse", "false")]
        )
    );
}
