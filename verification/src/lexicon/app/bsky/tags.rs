//! The type tags of the unions: the text under `$type` that says which
//! variant a payload holds.

use crate::errors::{BiskyError, FailureView};
use crate::firehose::models::{FirehoseEmbeds, FirehoseMainMediaEnum};
use crate::lexicon::app::bsky::embed::MainMediaEnum;
use crate::lexicon::app::bsky::feed::{Embeds, ThreadViewPostEnum};
use crate::lexicon::app::bsky::notification::NotificationRecord;
use crate::text::same_text;
use vstd::prelude::*;

verus! {

/// The variants of what a post embeds.
#[derive(Debug, Clone, Copy, PartialEq, Eq)]
pub enum EmbedKind {
    Images,
    External,
    Record,
    RecordWithMedia,
}

/// The variants of the media beside a quoted record.
#[derive(Debug, Clone, Copy, PartialEq, Eq)]
pub enum MediaKind {
    Images,
    External,
}

/// The variants of a place in a thread.
#[derive(Debug, Clone, Copy, PartialEq, Eq)]
pub enum ThreadKind {
    ThreadViewPost,
    NotFoundPost,
}

/// The variants of the record behind a notification.
#[derive(Debug, Clone, Copy, PartialEq, Eq)]
pub enum RecordKind {
    Post,
    Repost,
    Like,
    Follow,
}

impl EmbedKind {
    /// The tag of the variant.
    pub open spec fn tag(self) -> Seq<char> {
        match self {
            EmbedKind::Images => "app.bsky.embed.images"@,
            EmbedKind::External => "app.bsky.embed.external"@,
            EmbedKind::Record => "app.bsky.embed.record"@,
            EmbedKind::RecordWithMedia => "app.bsky.embed.recordWithMedia"@,
        }
    }

    /// The tag of the variant.
    pub fn type_tag(self) -> (r: &'static str)
        ensures
            r@ == self.tag(),
    {
        match self {
            EmbedKind::Images => "app.bsky.embed.images",
            EmbedKind::External => "app.bsky.embed.external",
            EmbedKind::Record => "app.bsky.embed.record",
            EmbedKind::RecordWithMedia => "app.bsky.embed.recordWithMedia",
        }
    }

    /// The variant that a tag names. A tag that names none is a decoding
    /// failure that carries the tag.
    pub fn from_tag(tag: &str) -> (r: Result<EmbedKind, BiskyError>)
        ensures
            match r {
                Ok(kind) => kind.tag() == tag@,
                Err(e) => e@ == FailureView::DecodeError(tag@) && forall|kind: EmbedKind|
                    kind.tag() != tag@,
            },
    {
        if same_text(tag, "app.bsky.embed.images") {
            Ok(EmbedKind::Images)
        } else if same_text(tag, "app.bsky.embed.external") {
            Ok(EmbedKind::External)
        } else if same_text(tag, "app.bsky.embed.record") {
            Ok(EmbedKind::Record)
        } else if same_text(tag, "app.bsky.embed.recordWithMedia") {
            Ok(EmbedKind::RecordWithMedia)
        } else {
            Err(BiskyError::DecodeError(String::from_str(tag)))
        }
    }

    /// No two variants share a tag.
    pub proof fn lemma_tags_differ(a: EmbedKind, b: EmbedKind)
        requires
            a.tag() == b.tag(),
        ensures
            a == b,
    {
        reveal_strlit("app.bsky.embed.images");
        reveal_strlit("app.bsky.embed.external");
        reveal_strlit("app.bsky.embed.record");
        reveal_strlit("app.bsky.embed.recordWithMedia");
        assert(EmbedKind::Images.tag().len() == 21 && EmbedKind::Images.tag()[15] == 'i');
        assert(EmbedKind::External.tag().len() == 23);
        assert(EmbedKind::Record.tag().len() == 21 && EmbedKind::Record.tag()[15] == 'r');
        assert(EmbedKind::RecordWithMedia.tag().len() == 30);
    }
}

impl MediaKind {
    /// The tag of the variant.
    pub open spec fn tag(self) -> Seq<char> {
        match self {
            MediaKind::Images => "app.bsky.embed.images"@,
            MediaKind::External => "app.bsky.embed.external"@,
        }
    }

    /// The tag of the variant.
    pub fn type_tag(self) -> (r: &'static str)
        ensures
            r@ == self.tag(),
    {
        match self {
            MediaKind::Images => "app.bsky.embed.images",
            MediaKind::External => "app.bsky.embed.external",
        }
    }

    /// The variant that a tag names. A tag that names none is a decoding
    /// failure that carries the tag.
    pub fn from_tag(tag: &str) -> (r: Result<MediaKind, BiskyError>)
        ensures
            match r {
                Ok(kind) => kind.tag() == tag@,
                Err(e) => e@ == FailureView::DecodeError(tag@) && forall|kind: MediaKind|
                    kind.tag() != tag@,
            },
    {
        if same_text(tag, "app.bsky.embed.images") {
            Ok(MediaKind::Images)
        } else if same_text(tag, "app.bsky.embed.external") {
            Ok(MediaKind::External)
        } else {
            Err(BiskyError::DecodeError(String::from_str(tag)))
        }
    }

    /// No two variants share a tag.
    pub proof fn lemma_tags_differ(a: MediaKind, b: MediaKind)
        requires
            a.tag() == b.tag(),
        ensures
            a == b,
    {
        reveal_strlit("app.bsky.embed.images");
        reveal_strlit("app.bsky.embed.external");
        assert(MediaKind::Images.tag().len() == 21);
        assert(MediaKind::External.tag().len() == 23);
    }
}

impl ThreadKind {
    /// The tag of the variant.
    pub open spec fn tag(self) -> Seq<char> {
        match self {
            ThreadKind::ThreadViewPost => "app.bsky.feed.defs#threadViewPost"@,
            ThreadKind::NotFoundPost => "app.bsky.feed.defs#notFoundPost"@,
        }
    }

    /// The tag of the variant.
    pub fn type_tag(self) -> (r: &'static str)
        ensures
            r@ == self.tag(),
    {
        match self {
            ThreadKind::ThreadViewPost => "app.bsky.feed.defs#threadViewPost",
            ThreadKind::NotFoundPost => "app.bsky.feed.defs#notFoundPost",
        }
    }

    /// The variant that a tag names. A tag that names none is a decoding
    /// failure that carries the tag.
    pub fn from_tag(tag: &str) -> (r: Result<ThreadKind, BiskyError>)
        ensures
            match r {
                Ok(kind) => kind.tag() == tag@,
                Err(e) => e@ == FailureView::DecodeError(tag@) && forall|kind: ThreadKind|
                    kind.tag() != tag@,
            },
    {
        if same_text(tag, "app.bsky.feed.defs#threadViewPost") {
            Ok(ThreadKind::ThreadViewPost)
        } else if same_text(tag, "app.bsky.feed.defs#notFoundPost") {
            Ok(ThreadKind::NotFoundPost)
        } else {
            Err(BiskyError::DecodeError(String::from_str(tag)))
        }
    }

    /// No two variants share a tag.
    pub proof fn lemma_tags_differ(a: ThreadKind, b: ThreadKind)
        requires
            a.tag() == b.tag(),
        ensures
            a == b,
    {
        reveal_strlit("app.bsky.feed.defs#threadViewPost");
        reveal_strlit("app.bsky.feed.defs#notFoundPost");
        assert(ThreadKind::ThreadViewPost.tag().len() == 33);
        assert(ThreadKind::NotFoundPost.tag().len() == 31);
    }
}

impl RecordKind {
    /// The tag of the variant.
    pub open spec fn tag(self) -> Seq<char> {
        match self {
            RecordKind::Post => "app.bsky.feed.post"@,
            RecordKind::Repost => "app.bsky.feed.repost"@,
            RecordKind::Like => "app.bsky.feed.like"@,
            RecordKind::Follow => "app.bsky.graph.follow"@,
        }
    }

    /// The tag of the variant.
    pub fn type_tag(self) -> (r: &'static str)
        ensures
            r@ == self.tag(),
    {
        match self {
            RecordKind::Post => "app.bsky.feed.post",
            RecordKind::Repost => "app.bsky.feed.repost",
            RecordKind::Like => "app.bsky.feed.like",
            RecordKind::Follow => "app.bsky.graph.follow",
        }
    }

    /// The variant that a tag names. A tag that names none is a decoding
    /// failure that carries the tag.
    pub fn from_tag(tag: &str) -> (r: Result<RecordKind, BiskyError>)
        ensures
            match r {
                Ok(kind) => kind.tag() == tag@,
                Err(e) => e@ == FailureView::DecodeError(tag@) && forall|kind: RecordKind|
                    kind.tag() != tag@,
            },
    {
        if same_text(tag, "app.bsky.feed.post") {
            Ok(RecordKind::Post)
        } else if same_text(tag, "app.bsky.feed.repost") {
            Ok(RecordKind::Repost)
        } else if same_text(tag, "app.bsky.feed.like") {
            Ok(RecordKind::Like)
        } else if same_text(tag, "app.bsky.graph.follow") {
            Ok(RecordKind::Follow)
        } else {
            Err(BiskyError::DecodeError(String::from_str(tag)))
        }
    }

    /// No two variants share a tag.
    pub proof fn lemma_tags_differ(a: RecordKind, b: RecordKind)
        requires
            a.tag() == b.tag(),
        ensures
            a == b,
    {
        reveal_strlit("app.bsky.feed.post");
        reveal_strlit("app.bsky.feed.repost");
        reveal_strlit("app.bsky.feed.like");
        reveal_strlit("app.bsky.graph.follow");
        assert(RecordKind::Post.tag().len() == 18 && RecordKind::Post.tag()[14] == 'p');
        assert(RecordKind::Repost.tag().len() == 20);
        assert(RecordKind::Like.tag().len() == 18 && RecordKind::Like.tag()[14] == 'l');
        assert(RecordKind::Follow.tag().len() == 21);
    }
}

impl Embeds {
    /// The variant that the value holds.
    pub open spec fn spec_kind(&self) -> EmbedKind {
        match self {
            Embeds::Images(_) => EmbedKind::Images,
            Embeds::External(_) => EmbedKind::External,
            Embeds::Record(_) => EmbedKind::Record,
            Embeds::RecordWithMedia(_) => EmbedKind::RecordWithMedia,
        }
    }

    /// The variant that the value holds.
    #[verifier::when_used_as_spec(spec_kind)]
    pub fn kind(&self) -> (r: EmbedKind)
        ensures
            r == self.spec_kind(),
    {
        match self {
            Embeds::Images(_) => EmbedKind::Images,
            Embeds::External(_) => EmbedKind::External,
            Embeds::Record(_) => EmbedKind::Record,
            Embeds::RecordWithMedia(_) => EmbedKind::RecordWithMedia,
        }
    }
}

impl FirehoseEmbeds {
    /// The variant that the value holds.
    pub open spec fn spec_kind(&self) -> EmbedKind {
        match self {
            FirehoseEmbeds::Images(_) => EmbedKind::Images,
            FirehoseEmbeds::External(_) => EmbedKind::External,
            FirehoseEmbeds::Record(_) => EmbedKind::Record,
            FirehoseEmbeds::RecordWithMedia(_) => EmbedKind::RecordWithMedia,
        }
    }

    /// The variant that the value holds.
    #[verifier::when_used_as_spec(spec_kind)]
    pub fn kind(&self) -> (r: EmbedKind)
        ensures
            r == self.spec_kind(),
    {
        match self {
            FirehoseEmbeds::Images(_) => EmbedKind::Images,
            FirehoseEmbeds::External(_) => EmbedKind::External,
            FirehoseEmbeds::Record(_) => EmbedKind::Record,
            FirehoseEmbeds::RecordWithMedia(_) => EmbedKind::RecordWithMedia,
        }
    }
}

impl MainMediaEnum {
    /// The variant that the value holds.
    pub open spec fn spec_kind(&self) -> MediaKind {
        match self {
            MainMediaEnum::AppBskyEmbedImagesMain(_) => MediaKind::Images,
            MainMediaEnum::AppBskyEmbedExternalMain(_) => MediaKind::External,
        }
    }

    /// The variant that the value holds.
    #[verifier::when_used_as_spec(spec_kind)]
    pub fn kind(&self) -> (r: MediaKind)
        ensures
            r == self.spec_kind(),
    {
        match self {
            MainMediaEnum::AppBskyEmbedImagesMain(_) => MediaKind::Images,
            MainMediaEnum::AppBskyEmbedExternalMain(_) => MediaKind::External,
        }
    }
}

impl FirehoseMainMediaEnum {
    /// The variant that the value holds.
    pub open spec fn spec_kind(&self) -> MediaKind {
        match self {
            FirehoseMainMediaEnum::AppBskyEmbedImagesMain(_) => MediaKind::Images,
            FirehoseMainMediaEnum::AppBskyEmbedExternalMain(_) => MediaKind::External,
        }
    }

    /// The variant that the value holds.
    #[verifier::when_used_as_spec(spec_kind)]
    pub fn kind(&self) -> (r: MediaKind)
        ensures
            r == self.spec_kind(),
    {
        match self {
            FirehoseMainMediaEnum::AppBskyEmbedImagesMain(_) => MediaKind::Images,
            FirehoseMainMediaEnum::AppBskyEmbedExternalMain(_) => MediaKind::External,
        }
    }
}

impl ThreadViewPostEnum {
    /// The variant that the value holds.
    pub open spec fn spec_kind(&self) -> ThreadKind {
        match self {
            ThreadViewPostEnum::ThreadViewPost(_) => ThreadKind::ThreadViewPost,
            ThreadViewPostEnum::NotFoundPost(_) => ThreadKind::NotFoundPost,
        }
    }

    /// The variant that the value holds.
    #[verifier::when_used_as_spec(spec_kind)]
    pub fn kind(&self) -> (r: ThreadKind)
        ensures
            r == self.spec_kind(),
    {
        match self {
            ThreadViewPostEnum::ThreadViewPost(_) => ThreadKind::ThreadViewPost,
            ThreadViewPostEnum::NotFoundPost(_) => ThreadKind::NotFoundPost,
        }
    }
}

impl NotificationRecord {
    /// The variant that the value holds.
    pub open spec fn spec_kind(&self) -> RecordKind {
        match self {
            NotificationRecord::Post(_) => RecordKind::Post,
            NotificationRecord::Repost(_) => RecordKind::Repost,
            NotificationRecord::Like(_) => RecordKind::Like,
            NotificationRecord::Follow(_) => RecordKind::Follow,
        }
    }

    /// The variant that the value holds.
    #[verifier::when_used_as_spec(spec_kind)]
    pub fn kind(&self) -> (r: RecordKind)
        ensures
            r == self.spec_kind(),
    {
        match self {
            NotificationRecord::Post(_) => RecordKind::Post,
            NotificationRecord::Repost(_) => RecordKind::Repost,
            NotificationRecord::Like(_) => RecordKind::Like,
            NotificationRecord::Follow(_) => RecordKind::Follow,
        }
    }
}

} // verus!
