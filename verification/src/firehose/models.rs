//! Posts as the change feed carries them: attachments are referred to by raw
//! content identifiers.

use crate::lexicon::app::bsky::embed::Record;
use crate::lexicon::app::bsky::feed::ReplyRef;
use crate::time::Timestamp;
use vstd::prelude::*;

verus! {

/// A post record of the change feed.
#[derive(Debug, PartialEq)]
pub struct FirehosePost {
    pub created_at: Timestamp,
    pub rust_type: Option<String>,
    pub text: String,
    pub embed: Option<FirehoseEmbeds>,
    pub reply: Option<ReplyRef>,
}

/// What a post of the change feed embeds.
#[derive(Debug, PartialEq)]
pub enum FirehoseEmbeds {
    Images(FirehoseImagesEmbed),
    External(FirehoseExternal),
    Record(Record),
    RecordWithMedia(FirehoseRecordWithMedia),
}

/// `app.bsky.embed.external#external`
#[derive(Debug, PartialEq)]
pub struct FirehoseExternalObject {
    pub uri: String,
    pub title: String,
    pub thumb: Option<FirehoseBlob>,
    pub description: String,
    pub max_size: Option<usize>,
}

/// `app.bsky.embed.external`
#[derive(Debug, PartialEq)]
pub struct FirehoseExternal {
    pub external: FirehoseExternalObject,
}

/// An attachment, referred to by its raw content identifier.
#[derive(Debug, PartialEq)]
pub struct FirehoseBlob {
    pub rust_type: String,
    pub reference: Vec<u8>,
    pub mime_type: String,
    pub size: usize,
}

/// An attached image with its description.
#[derive(Debug, PartialEq)]
pub struct FirehoseImage {
    pub image: FirehoseBlob,
    pub alt: String,
}

/// `app.bsky.embed.images`
#[derive(Debug, PartialEq)]
pub struct FirehoseImagesEmbed {
    pub images: Vec<FirehoseImage>,
}

/// `app.bsky.embed.recordWithMedia`
#[derive(Debug, PartialEq)]
pub struct FirehoseRecordWithMedia {
    pub media: FirehoseMainMediaEnum,
    pub record: Record,
}

/// The media beside a quoted record.
#[derive(Debug, PartialEq)]
pub enum FirehoseMainMediaEnum {
    AppBskyEmbedImagesMain(FirehoseImagesEmbed),
    AppBskyEmbedExternalMain(FirehoseExternal),
}

} // verus!
