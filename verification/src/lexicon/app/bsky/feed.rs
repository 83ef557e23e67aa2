//! `app.bsky.feed`: posts, likes, reposts and threads.

use crate::lexicon::app::bsky::actor::ProfileView;
use crate::lexicon::app::bsky::embed::{External, Image, Record, RecordWithMedia};
use crate::lexicon::com::atproto::repo::StrongRef;
use crate::time::Timestamp;
use vstd::prelude::*;

verus! {

/// `app.bsky.embed.images`
#[derive(Debug, PartialEq)]
pub struct ImagesEmbed {
    pub images: Vec<Image>,
}

/// What a post embeds.
#[derive(Debug, PartialEq)]
pub enum Embeds {
    Images(ImagesEmbed),
    External(External),
    Record(Record),
    RecordWithMedia(RecordWithMedia),
}

/// A post record.
#[derive(Debug, PartialEq)]
pub struct Post {
    pub created_at: Timestamp,
    pub rust_type: Option<String>,
    pub text: String,
    pub embed: Option<Embeds>,
    pub reply: Option<ReplyRef>,
    pub record: Option<StrongRef>,
}

/// The least that is said of an actor.
#[derive(Debug, PartialEq)]
pub struct ProfileViewBasic {
    pub did: String,
    pub handle: String,
}

/// A post as a feed serves it.
#[derive(Debug, PartialEq)]
pub struct PostView {
    pub uri: String,
    pub cid: String,
    pub author: ProfileViewBasic,
    pub record: Post,
    pub indexed_at: Timestamp,
}

/// Why a post appears in a feed though its author is not followed.
#[derive(Debug, PartialEq)]
pub struct ReasonRepost {
    pub by: ProfileViewBasic,
    pub indexed_at: Timestamp,
}

/// A post in a feed, with the reason for which it is there.
#[derive(Debug, PartialEq)]
pub struct FeedViewPost {
    pub post: PostView,
    pub reason: Option<ReasonRepost>,
}

/// One page of an author's feed.
#[derive(Debug, PartialEq)]
pub struct AuthorFeed {
    pub cursor: Option<String>,
    pub feed: Vec<FeedViewPost>,
}

/// A like record.
#[derive(Debug, PartialEq)]
pub struct Like {
    pub created_at: Timestamp,
    pub subject: StrongRef,
}

/// A like as `app.bsky.feed.getLikes` serves it.
#[derive(Debug, PartialEq)]
pub struct GetLikesLike {
    pub created_at: Timestamp,
    pub indexed_at: Timestamp,
    pub actor: ProfileView,
}

/// A repost record.
#[derive(Debug, PartialEq)]
pub struct Repost {
    pub created_at: Timestamp,
    pub subject: StrongRef,
}

/// Where a reply stands in its thread.
#[derive(Debug, PartialEq)]
pub struct ReplyRef {
    pub root: StrongRef,
    pub parent: StrongRef,
}

/// The parameters of `app.bsky.feed.getLikes`.
#[derive(Debug, PartialEq)]
pub struct GetLikes {
    pub uri: String,
    pub cid: Option<String>,
    pub limit: Option<usize>,
    pub cursor: Option<String>,
}

/// One page of the likes of a post.
#[derive(Debug, PartialEq)]
pub struct GetLikesOutput {
    pub uri: String,
    pub cid: Option<String>,
    pub likes: Vec<GetLikesLike>,
    pub cursor: Option<String>,
}

/// A post in a thread.
#[derive(Debug, PartialEq)]
pub struct ThreadViewPost {
    pub post: PostView,
}

/// The mark of a post that is gone.
#[derive(Debug, PartialEq)]
pub struct NotFoundPost {
    pub uri: String,
    pub not_found: bool,
}

/// A place in a thread: a post, or the mark of one that is gone.
#[derive(Debug, PartialEq)]
pub enum ThreadViewPostEnum {
    ThreadViewPost(ThreadViewPost),
    NotFoundPost(NotFoundPost),
}

/// The parameters of `app.bsky.feed.getPostThread`.
#[derive(Debug, PartialEq)]
pub struct GetPostThread {
    pub uri: String,
    pub depth: Option<usize>,
}

/// What `getPostThread` answers.
#[derive(Debug, PartialEq)]
pub struct GetPostThreadOutput {
    pub thread: ThreadViewPostEnum,
}

} // verus!
