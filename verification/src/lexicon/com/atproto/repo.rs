//! `com.atproto.repo`: records in a repository.

use crate::errors::opt_str;
use vstd::prelude::*;

verus! {

/// A pointer to one committed version of one record.
#[derive(Debug, PartialEq)]
pub struct StrongRef {
    pub uri: String,
    pub cid: String,
}

/// A stored record of the shape `T`.
#[derive(Debug, PartialEq)]
pub struct Record<T> {
    pub uri: String,
    pub cid: String,
    pub value: T,
}

/// One page of a collection.
#[derive(Debug, PartialEq)]
pub struct ListRecordsOutput<T> {
    /// The token that fetches the next page; `None` after the last page.
    pub cursor: Option<String>,
    pub records: Vec<Record<T>>,
}

/// The input of `createRecord`.
#[derive(Debug, PartialEq)]
pub struct CreateRecord<'a, T> {
    pub repo: &'a str,
    pub collection: &'a str,
    pub record: T,
    /// Absent: the server assigns a fresh key.
    pub rkey: Option<&'a str>,
    pub validate: Option<bool>,
    /// Present: the repository's commit that the call expects to replace.
    pub swap_commit: Option<&'a str>,
}

/// The input of `putRecord`.
#[derive(Debug, PartialEq)]
pub struct PutRecord<'a, T> {
    pub repo: &'a str,
    pub collection: &'a str,
    pub record: T,
    pub rkey: &'a str,
    pub validate: Option<bool>,
    /// Present: the record version that the call expects to replace.
    pub swap_record: Option<&'a str>,
    /// Present: the repository's commit that the call expects to replace.
    pub swap_commit: Option<&'a str>,
}

/// The input of `deleteRecord`.
#[derive(Debug, PartialEq)]
pub struct DeleteRecord<'a> {
    pub repo: &'a str,
    pub collection: &'a str,
    pub rkey: &'a str,
    pub swap_record: Option<&'a str>,
    pub swap_commit: Option<&'a str>,
}

/// What `createRecord` and `putRecord` answer.
#[derive(Debug, PartialEq)]
pub struct CreateRecordOutput {
    pub cid: String,
    pub uri: String,
}

/// The bytes of an attachment.
#[derive(Debug, PartialEq)]
pub struct CreateUploadBlob {
    pub blob: Vec<u8>,
}

/// A content-addressed link.
#[derive(Debug, PartialEq)]
pub struct Link {
    pub link: String,
}

/// The descriptor of an uploaded attachment.
#[derive(Debug, PartialEq)]
pub struct Blob {
    pub rust_type: String,
    pub reference: Link,
    pub mime_type: String,
    pub size: usize,
}

/// What `uploadBlob` answers.
#[derive(Debug, PartialEq)]
pub struct BlobOutput {
    pub blob: Blob,
}

/// The input of `createRecord` as texts around the record.
pub struct CreateRecordView<T> {
    pub repo: Seq<char>,
    pub collection: Seq<char>,
    pub record: T,
    pub rkey: Option<Seq<char>>,
    pub validate: Option<bool>,
    pub swap_commit: Option<Seq<char>>,
}

/// The input of `putRecord` as texts around the record.
pub struct PutRecordView<T> {
    pub repo: Seq<char>,
    pub collection: Seq<char>,
    pub record: T,
    pub rkey: Seq<char>,
    pub validate: Option<bool>,
    pub swap_record: Option<Seq<char>>,
    pub swap_commit: Option<Seq<char>>,
}

/// The input of `deleteRecord` as texts.
pub struct DeleteRecordView {
    pub repo: Seq<char>,
    pub collection: Seq<char>,
    pub rkey: Seq<char>,
    pub swap_record: Option<Seq<char>>,
    pub swap_commit: Option<Seq<char>>,
}

impl<'a, T> View for CreateRecord<'a, T> {
    type V = CreateRecordView<T>;

    open spec fn view(&self) -> CreateRecordView<T> {
        CreateRecordView {
            repo: self.repo@,
            collection: self.collection@,
            record: self.record,
            rkey: opt_str(self.rkey),
            validate: self.validate,
            swap_commit: opt_str(self.swap_commit),
        }
    }
}

impl<'a, T> View for PutRecord<'a, T> {
    type V = PutRecordView<T>;

    open spec fn view(&self) -> PutRecordView<T> {
        PutRecordView {
            repo: self.repo@,
            collection: self.collection@,
            record: self.record,
            rkey: self.rkey@,
            validate: self.validate,
            swap_record: opt_str(self.swap_record),
            swap_commit: opt_str(self.swap_commit),
        }
    }
}

impl<'a> View for DeleteRecord<'a> {
    type V = DeleteRecordView;

    open spec fn view(&self) -> DeleteRecordView {
        DeleteRecordView {
            repo: self.repo@,
            collection: self.collection@,
            rkey: self.rkey@,
            swap_record: opt_str(self.swap_record),
            swap_commit: opt_str(self.swap_commit),
        }
    }
}

impl View for CreateUploadBlob {
    type V = Seq<u8>;

    open spec fn view(&self) -> Seq<u8> {
        self.blob@
    }
}

impl<T> ListRecordsOutput<T> {
    /// Takes the page apart into its records and the next cursor.
    pub fn into_page(self) -> (r: (Vec<Record<T>>, Option<String>))
        ensures
            r.0 == self.records,
            r.1 == self.cursor,
    {
        (self.records, self.cursor)
    }
}

impl CreateRecordOutput {
    /// The pointer to the version that the call committed.
    pub fn into_strong_ref(self) -> (r: StrongRef)
        ensures
            r.uri == self.uri,
            r.cid == self.cid,
    {
        StrongRef { uri: self.uri, cid: self.cid }
    }
}

} // verus!
