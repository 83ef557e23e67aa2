//! Operations on the records of a repository, whatever their collection.

use crate::atproto::client::Client;
use crate::atproto::params::{
    cursor_param, limit_param, no_params, push_limit, push_optional,
};
use crate::atproto::xrpc::{
    is_success, lines, push_param, verdict, GetRequest, Lines, PostHead, PostRequest, Response,
};
use crate::errors::{opt_str, BiskyError};
use crate::lexicon::com::atproto::repo::{
    CreateRecord, CreateRecordView, CreateUploadBlob, DeleteRecord, DeleteRecordView, PutRecord,
    PutRecordView, Record,
};
use crate::text::{render_truth, truth};
use vstd::prelude::*;
use vstd::slice::slice_to_vec;

verus! {

/// The parameters that name one record.
pub open spec fn record_key(repo: Seq<char>, collection: Seq<char>, rkey: Seq<char>) -> Lines {
    seq![("repo"@, repo), ("collection"@, collection), ("rkey"@, rkey)]
}

/// The parameters of one page of a collection.
pub open spec fn listing(
    repo: Seq<char>,
    collection: Seq<char>,
    limit: usize,
    reverse: bool,
    cursor: Option<Seq<char>>,
) -> Lines {
    seq![("repo"@, repo), ("collection"@, collection)] + limit_param(limit) + seq![
        ("reverse"@, truth(reverse)),
    ] + cursor_param(cursor)
}

impl Client {
    /// Prepares the creation of a record. Without `rkey` the server assigns a
    /// fresh key.
    pub fn repo_create_record<'a, S>(
        &self,
        repo: &'a str,
        collection: &'a str,
        rkey: Option<&'a str>,
        validate: Option<bool>,
        swap_commit: Option<&'a str>,
        record: S,
    ) -> (r: Result<PostRequest<CreateRecord<'a, S>>, BiskyError>)
        ensures
            self.posting(
                r,
                "com.atproto.repo.createRecord"@,
                (CreateRecordView {
                    repo: repo@,
                    collection: collection@,
                    record,
                    rkey: opt_str(rkey),
                    validate,
                    swap_commit: opt_str(swap_commit),
                }),
            ),
    {
        if self.session.is_none() {
            return Err(BiskyError::MissingSession);
        }
        let input = CreateRecord { repo, collection, record, rkey, validate, swap_commit };
        Ok(self.xrpc_post("com.atproto.repo.createRecord", input))
    }

    /// Prepares the writing of a record at a known key.
    pub fn repo_put_record<'a, S>(
        &self,
        repo: &'a str,
        collection: &'a str,
        rkey: &'a str,
        swap_record: Option<&'a str>,
        swap_commit: Option<&'a str>,
        validate: Option<bool>,
        record: S,
    ) -> (r: Result<PostRequest<PutRecord<'a, S>>, BiskyError>)
        ensures
            self.posting(
                r,
                "com.atproto.repo.putRecord"@,
                (PutRecordView {
                    repo: repo@,
                    collection: collection@,
                    record,
                    rkey: rkey@,
                    validate,
                    swap_record: opt_str(swap_record),
                    swap_commit: opt_str(swap_commit),
                }),
            ),
    {
        if self.session.is_none() {
            return Err(BiskyError::MissingSession);
        }
        let input = PutRecord {
            repo,
            collection,
            record,
            rkey,
            validate,
            swap_record,
            swap_commit,
        };
        Ok(self.xrpc_post("com.atproto.repo.putRecord", input))
    }

    /// Prepares the reading of one record.
    pub fn repo_get_record(&self, repo: &str, collection: &str, rkey: &str) -> (r: Result<
        GetRequest,
        BiskyError,
    >)
        ensures
            self.guarded(
                r,
                self.get_call("com.atproto.repo.getRecord"@, record_key(repo@, collection@, rkey@)),
            ),
    {
        if self.session.is_none() {
            return Err(BiskyError::MissingSession);
        }
        let mut query = no_params();
        push_param(&mut query, "repo", repo);
        push_param(&mut query, "collection", collection);
        push_param(&mut query, "rkey", rkey);
        assert(lines(query@) =~= record_key(repo@, collection@, rkey@));
        Ok(self.xrpc_get("com.atproto.repo.getRecord", query))
    }

    /// Prepares the deletion of one record.
    pub fn repo_delete_record<'a>(
        &self,
        repo: &'a str,
        collection: &'a str,
        rkey: &'a str,
        swap_record: Option<&'a str>,
        swap_commit: Option<&'a str>,
    ) -> (r: Result<PostRequest<DeleteRecord<'a>>, BiskyError>)
        ensures
            self.posting(
                r,
                "com.atproto.repo.deleteRecord"@,
                (DeleteRecordView {
                    repo: repo@,
                    collection: collection@,
                    rkey: rkey@,
                    swap_record: opt_str(swap_record),
                    swap_commit: opt_str(swap_commit),
                }),
            ),
    {
        if self.session.is_none() {
            return Err(BiskyError::MissingSession);
        }
        let input = DeleteRecord { repo, collection, rkey, swap_record, swap_commit };
        Ok(self.xrpc_post("com.atproto.repo.deleteRecord", input))
    }

    /// Prepares the reading of one page of a collection. The unbounded limit
    /// leaves the page size to the server; it does not ask for everything.
    pub fn repo_list_records(
        &self,
        repo: &str,
        collection: &str,
        limit: usize,
        reverse: bool,
        cursor: Option<&str>,
    ) -> (r: Result<GetRequest, BiskyError>)
        ensures
            self.guarded(
                r,
                self.get_call(
                    "com.atproto.repo.listRecords"@,
                    listing(repo@, collection@, limit, reverse, opt_str(cursor)),
                ),
            ),
    {
        if self.session.is_none() {
            return Err(BiskyError::MissingSession);
        }
        let mut query = no_params();
        push_param(&mut query, "repo", repo);
        push_param(&mut query, "collection", collection);
        push_limit(&mut query, limit);
        let reverse_text = render_truth(reverse);
        push_param(&mut query, "reverse", reverse_text.as_str());
        push_optional(&mut query, "cursor", cursor);
        assert(lines(query@) =~= listing(repo@, collection@, limit, reverse, opt_str(cursor)));
        Ok(self.xrpc_get("com.atproto.repo.listRecords", query))
    }

    /// Prepares the upload of an attachment: the bytes as they are, under the
    /// media type that the caller names.
    pub fn repo_upload_blob(&self, blob: &[u8], mime_type: &str) -> (r: Result<
        PostRequest<CreateUploadBlob>,
        BiskyError,
    >)
        ensures
            match r {
                Ok(call) => {
                    &&& self.session is Some
                    &&& call.head() == (PostHead {
                        content_type: mime_type@,
                        ..self.json_head("com.atproto.repo.uploadBlob"@)
                    })
                    &&& call.body@ == blob@
                },
                Err(e) => self.session is None && e@ == crate::errors::FailureView::MissingSession,
            },
    {
        if self.session.is_none() {
            return Err(BiskyError::MissingSession);
        }
        Ok(self.xrpc_post_bytes("com.atproto.repo.uploadBlob", slice_to_vec(blob), mime_type))
    }

    /// Prepares the lookup of the actor behind a handle. The lookup needs no
    /// session.
    pub fn repo_resolve_handle(&self, handle: &str) -> (r: GetRequest)
        ensures
            r@ == self.get_call("com.atproto.identity.resolveHandle"@, seq![("handle"@, handle@)]),
    {
        let mut query = no_params();
        push_param(&mut query, "handle", handle);
        self.xrpc_get("com.atproto.identity.resolveHandle", query)
    }
}

/// The key under which a repository keeps what a writing stores.
pub open spec fn stored_at<T>(input: PutRecordView<T>) -> Lines {
    record_key(input.repo, input.collection, input.rkey)
}

/// A record that is put and then read under the same owner, collection and
/// key comes back as it was stored, against any repository that keeps under
/// each key what was last put there. Both calls are made with a session;
/// `put` and `get` are what [`Client::repo_put_record`] and
/// [`Client::repo_get_record`] return; `store` is the repository before the
/// writing, and `response` a success response to the reading that holds what
/// the repository then keeps under the key that the reading names.
pub proof fn lemma_put_then_get_round_trip<'a, T>(
    client: Client,
    owner: Seq<char>,
    collection: Seq<char>,
    rkey: Seq<char>,
    value: T,
    validate: Option<bool>,
    swap_record: Option<Seq<char>>,
    swap_commit: Option<Seq<char>>,
    put: Result<PostRequest<PutRecord<'a, T>>, BiskyError>,
    get: Result<GetRequest, BiskyError>,
    store: Map<Lines, T>,
    response: Response<Record<T>>,
)
    requires
        client.session is Some,
        client.posting(
            put,
            "com.atproto.repo.putRecord"@,
            (PutRecordView {
                repo: owner,
                collection,
                record: value,
                rkey,
                validate,
                swap_record,
                swap_commit,
            }),
        ),
        client.guarded(
            get,
            client.get_call("com.atproto.repo.getRecord"@, record_key(owner, collection, rkey)),
        ),
        is_success(response.status),
        response.value matches Some(record) && record.value == store.insert(
            stored_at(put->Ok_0.body@),
            put->Ok_0.body@.record,
        )[get->Ok_0@.query],
    ensures
        put is Ok,
        get is Ok,
        verdict(Ok(response)) matches Ok(record) && record.value == value,
{
}

} // verus!
