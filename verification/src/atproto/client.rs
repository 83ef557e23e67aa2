//! The client: the holder of the session, and the operations built on it.

use crate::atproto::xrpc::{
    address_of, bearer, bearer_of, endpoint, interpret, verdict, GetRequest, GetView, Lines,
    Outcome, Params, PostHead, PostRequest,
};
use crate::errors::{BiskyError, FailureView};
use crate::lexicon::com::atproto::repo::CreateUploadBlob;
use crate::lexicon::com::atproto::server::{CreateSession, Session};
use vstd::prelude::*;

verus! {

/// Holds the host to talk to and at most one session.
#[derive(Debug, Clone, PartialEq)]
pub struct Client {
    /// The base address of the service, such as `https://bsky.social`.
    pub service: String,
    /// The session; `None` until a login succeeds and after a logout.
    pub session: Option<Session>,
}

impl Default for Client {
    fn default() -> (r: Client)
        ensures
            r.service@ == "https://bsky.social"@,
            r.session is None,
    {
        Client { service: String::from_str("https://bsky.social"), session: None }
    }
}

impl Client {
    /// The authorization value that this client's calls carry.
    pub open spec fn authorization(&self) -> Option<Seq<char>> {
        match self.session {
            Some(s) => Some(bearer(s.access_jwt@)),
            None => None,
        }
    }

    /// The read-style call of a method with the given parameters.
    pub open spec fn get_call(&self, method: Seq<char>, query: Lines) -> GetView {
        GetView {
            address: endpoint(self.service@, method),
            query,
            authorization: self.authorization(),
        }
    }

    /// What the write-style call of a method with a JSON input carries
    /// besides the input.
    pub open spec fn json_head(&self, method: Seq<char>) -> PostHead {
        PostHead {
            address: endpoint(self.service@, method),
            authorization: self.authorization(),
            content_type: "application/json"@,
        }
    }

    /// What an operation that needs a session returns: the prepared call
    /// where a session is held, and the missing session where none is.
    pub open spec fn guarded<R: View>(&self, r: Result<R, BiskyError>, call: R::V) -> bool {
        match r {
            Ok(c) => self.session is Some && c@ == call,
            Err(e) => self.session is None && e@ == FailureView::MissingSession,
        }
    }

    /// What a write-style operation that needs a session returns: the call of
    /// the method with the input where a session is held, and the missing
    /// session where none is.
    pub open spec fn posting<B: View>(
        &self,
        r: Result<PostRequest<B>, BiskyError>,
        method: Seq<char>,
        input: B::V,
    ) -> bool {
        match r {
            Ok(call) => {
                &&& self.session is Some
                &&& call.head() == self.json_head(method)
                &&& call.body@ == input
            },
            Err(e) => self.session is None && e@ == FailureView::MissingSession,
        }
    }

    /// A client for a service, without a session.
    pub fn new(service: String) -> (r: Client)
        ensures
            r.service == service,
            r.session is None,
    {
        Client { service, session: None }
    }

    /// Installs a session in place of the one held, if any.
    pub fn set_session(&mut self, session: Session)
        ensures
            final(self).session == Some(session),
            final(self).service == old(self).service,
    {
        self.session = Some(session);
    }

    /// Drops the session.
    pub fn clear_session(&mut self)
        ensures
            final(self).session is None,
            final(self).service == old(self).service,
    {
        self.session = None;
    }

    /// The identifier of the actor whose session is held.
    pub fn current_actor(&self) -> (r: Result<&str, BiskyError>)
        ensures
            match self.session {
                Some(s) => r matches Ok(actor) && actor@ == s.did@,
                None => r matches Err(e) && e@ == FailureView::MissingSession,
            },
    {
        match &self.session {
            Some(s) => Ok(s.did.as_str()),
            None => Err(BiskyError::MissingSession),
        }
    }

    fn authorization_value(&self) -> (r: Option<String>)
        ensures
            crate::errors::opt_text(r) == self.authorization(),
    {
        match &self.session {
            Some(s) => Some(bearer_of(s.access_jwt.as_str())),
            None => None,
        }
    }

    /// Prepares a read-style call. The credential is attached where a session
    /// is held; whether the method needs one is for the caller to enforce.
    pub fn xrpc_get(&self, method: &str, query: Params) -> (r: GetRequest)
        ensures
            r@ == self.get_call(method@, crate::atproto::xrpc::lines(query@)),
            r.query == query,
    {
        GetRequest {
            address: address_of(self.service.as_str(), method),
            query,
            authorization: self.authorization_value(),
        }
    }

    /// Prepares a write-style call with a JSON input. The credential is
    /// attached where a session is held.
    pub fn xrpc_post<B>(&self, method: &str, body: B) -> (r: PostRequest<B>)
        ensures
            r.head() == self.json_head(method@),
            r.body == body,
    {
        PostRequest {
            address: address_of(self.service.as_str(), method),
            authorization: self.authorization_value(),
            content_type: String::from_str("application/json"),
            body,
        }
    }

    /// Prepares a write-style call that sends bytes as they are, under the
    /// media type that the caller names. The credential is attached where a
    /// session is held.
    pub fn xrpc_post_bytes(&self, method: &str, bytes: Vec<u8>, media_type: &str) -> (r:
        PostRequest<CreateUploadBlob>)
        ensures
            r.head() == (PostHead { content_type: media_type@, ..self.json_head(method@) }),
            r.body.blob == bytes,
    {
        PostRequest {
            address: address_of(self.service.as_str(), method),
            authorization: self.authorization_value(),
            content_type: String::from_str(media_type),
            body: CreateUploadBlob { blob: bytes },
        }
    }

    /// Prepares the call that opens a session.
    pub fn login<'a>(&self, identifier: &'a str, password: &'a str) -> (r: PostRequest<
        CreateSession<'a>,
    >)
        ensures
            r.head() == self.json_head("com.atproto.server.createSession"@),
            r.body == (CreateSession { identifier, password }),
    {
        self.xrpc_post("com.atproto.server.createSession", CreateSession { identifier, password })
    }

    /// Completes a login with the outcome of the call that [`Client::login`]
    /// prepared. A session that arrived replaces the one held; a failure
    /// leaves the client as it was.
    pub fn complete_login(&mut self, outcome: Outcome<Session>) -> (r: Result<(), BiskyError>)
        ensures
            final(self).service == old(self).service,
            match verdict(outcome) {
                Ok(session) => r is Ok && final(self).session == Some(session),
                Err(e) => r matches Err(f) && f@ == e && final(self).session == old(self).session,
            },
    {
        match interpret(outcome) {
            Ok(session) => {
                self.session = Some(session);
                Ok(())
            },
            Err(e) => Err(e),
        }
    }
}

/// Without a session, an operation that needs one prepares no call: what it
/// returns is the missing session, before anything could be sent.
pub proof fn lemma_no_session_no_call<R: View>(
    client: Client,
    r: Result<R, BiskyError>,
    call: R::V,
)
    requires
        client.session is None,
        client.guarded(r, call),
    ensures
        r matches Err(e) && e@ == FailureView::MissingSession,
{
}

/// Without a session, a write-style operation that needs one prepares no
/// call: what it returns is the missing session.
pub proof fn lemma_no_session_no_post<B: View>(
    client: Client,
    r: Result<PostRequest<B>, BiskyError>,
    method: Seq<char>,
    input: B::V,
)
    requires
        client.session is None,
        client.posting(r, method, input),
    ensures
        r matches Err(e) && e@ == FailureView::MissingSession,
{
}

/// With a session, every call that the client prepares carries the session's
/// access credential as its bearer authorization; without one, none does.
pub proof fn lemma_credential_iff_session(client: Client, method: Seq<char>, query: Lines)
    ensures
        client.get_call(method, query).authorization is Some <==> client.session is Some,
        client.json_head(method).authorization is Some <==> client.session is Some,
        client.session matches Some(session) ==> client.get_call(method, query).authorization
            == Some(bearer(session.access_jwt@)) && client.json_head(method).authorization == Some(
            bearer(session.access_jwt@),
        ),
{
}

} // verus!
