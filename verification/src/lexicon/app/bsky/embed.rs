//! `app.bsky.embed`: what a post can carry besides its text.

use crate::lexicon::app::bsky::feed::ImagesEmbed;
use crate::lexicon::com::atproto::repo::{Blob, BlobOutput, StrongRef};
use vstd::prelude::*;

verus! {

/// An uploaded image with its description.
#[derive(Debug, PartialEq)]
pub struct Image {
    pub image: Blob,
    pub alt: String,
}

/// An image as a view serves it.
#[derive(Debug, PartialEq)]
pub struct ViewImage {
    pub thumb: String,
    pub full_size: String,
    pub alt: String,
}

/// `app.bsky.embed.external#external`: a link card.
#[derive(Debug, PartialEq)]
pub struct ExternalObject {
    pub uri: String,
    pub title: String,
    pub thumb: Option<BlobOutput>,
    pub description: String,
    pub max_size: Option<usize>,
}

/// `app.bsky.embed.external`
#[derive(Debug, PartialEq)]
pub struct External {
    pub external: ExternalObject,
}

/// `app.bsky.embed.record`: a quoted record.
#[derive(Debug, PartialEq)]
pub struct Record {
    pub record: StrongRef,
}

/// `app.bsky.embed.recordWithMedia`: a quoted record beside media.
#[derive(Debug, PartialEq)]
pub struct RecordWithMedia {
    pub media: MainMediaEnum,
    pub record: Record,
}

/// The media beside a quoted record.
#[derive(Debug, PartialEq)]
pub enum MainMediaEnum {
    AppBskyEmbedImagesMain(ImagesEmbed),
    AppBskyEmbedExternalMain(External),
}

} // verus!
