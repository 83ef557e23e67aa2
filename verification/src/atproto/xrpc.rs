//! One call: the request that goes out, and the meaning of what comes back.

use crate::errors::{ApiError, BiskyError, FailureView};
use crate::text::join;
use vstd::prelude::*;

verus! {

/// The two ways of calling a method.
#[derive(Debug, Clone, Copy, PartialEq, Eq)]
pub enum Verb {
    /// A read-style call: parameters in the query string, no body.
    Get,
    /// A write-style call: the input in the body.
    Post,
}

/// Parameters in the order in which they are sent.
pub type Params = Vec<(String, String)>;

/// The lines of a request's head, or the parameters of a query, as texts.
pub type Lines = Seq<(Seq<char>, Seq<char>)>;

/// The texts of a list of pairs.
pub open spec fn lines(pairs: Seq<(String, String)>) -> Lines {
    pairs.map_values(|p: (String, String)| (p.0@, p.1@))
}

/// Where a method lives on a host.
pub open spec fn endpoint(host: Seq<char>, method: Seq<char>) -> Seq<char> {
    host + "/xrpc/"@ + method
}

/// The value of the authorization header for a credential.
pub open spec fn bearer(credential: Seq<char>) -> Seq<char> {
    "Bearer "@ + credential
}

/// The head of a request: the authorization, where there is one, then the
/// content type, where there is a body.
pub open spec fn head(authorization: Option<Seq<char>>, content_type: Option<Seq<char>>) -> Lines {
    (match authorization {
        Some(a) => seq![("Authorization"@, a)],
        None => seq![],
    }) + (match content_type {
        Some(t) => seq![("Content-Type"@, t)],
        None => seq![],
    })
}

/// A read-style call, ready to be sent.
#[derive(Debug, PartialEq)]
pub struct GetRequest {
    /// The host, the fixed path prefix and the method's name.
    pub address: String,
    /// The parameters of the query string, in order.
    pub query: Params,
    /// The value of the authorization header; `None` sends no such header.
    pub authorization: Option<String>,
}

/// A write-style call, ready to be sent.
#[derive(Debug, PartialEq)]
pub struct PostRequest<B> {
    /// The host, the fixed path prefix and the method's name.
    pub address: String,
    /// The value of the authorization header; `None` sends no such header.
    pub authorization: Option<String>,
    /// The media type of the body.
    pub content_type: String,
    /// The input, before it is encoded.
    pub body: B,
}

/// A read-style call as texts.
pub struct GetView {
    pub address: Seq<char>,
    pub query: Lines,
    pub authorization: Option<Seq<char>>,
}

/// What a write-style call carries besides its input, as texts.
pub struct PostHead {
    pub address: Seq<char>,
    pub authorization: Option<Seq<char>>,
    pub content_type: Seq<char>,
}

impl View for GetRequest {
    type V = GetView;

    open spec fn view(&self) -> GetView {
        GetView {
            address: self.address@,
            query: lines(self.query@),
            authorization: crate::errors::opt_text(self.authorization),
        }
    }
}

impl<B> PostRequest<B> {
    /// What the call carries besides its input.
    pub open spec fn head(&self) -> PostHead {
        PostHead {
            address: self.address@,
            authorization: crate::errors::opt_text(self.authorization),
            content_type: self.content_type@,
        }
    }
}

/// Adds one parameter at the end of a list.
pub fn push_param(params: &mut Params, name: &str, value: &str)
    ensures
        lines(final(params)@) == lines(old(params)@).push((name@, value@)),
{
    let pair = (String::from_str(name), String::from_str(value));
    params.push(pair);
}

fn head_lines(authorization: &Option<String>, content_type: Option<&str>) -> (r: Params)
    ensures
        lines(r@) == head(
            crate::errors::opt_text(*authorization),
            crate::errors::opt_str(content_type),
        ),
{
    let mut r: Params = Vec::new();
    match authorization {
        Some(a) => {
            push_param(&mut r, "Authorization", a.as_str());
        },
        None => {},
    }
    match content_type {
        Some(t) => {
            push_param(&mut r, "Content-Type", t);
        },
        None => {},
    }
    r
}

impl GetRequest {
    /// The verb of a read-style call.
    pub fn verb(&self) -> (r: Verb)
        ensures
            r == Verb::Get,
    {
        Verb::Get
    }

    /// The header lines to send: the authorization, where there is one.
    pub fn headers(&self) -> (r: Params)
        ensures
            lines(r@) == head(self@.authorization, None),
    {
        head_lines(&self.authorization, None)
    }
}

impl<B> PostRequest<B> {
    /// The verb of a write-style call.
    pub fn verb(&self) -> (r: Verb)
        ensures
            r == Verb::Post,
    {
        Verb::Post
    }

    /// The header lines to send: the authorization, where there is one, then
    /// the content type.
    pub fn headers(&self) -> (r: Params)
        ensures
            lines(r@) == head(self.head().authorization, Some(self.head().content_type)),
    {
        head_lines(&self.authorization, Some(self.content_type.as_str()))
    }
}

/// Writes the address of a method on a host.
pub fn address_of(host: &str, method: &str) -> (r: String)
    ensures
        r@ == endpoint(host@, method@),
{
    let mut r = join(host, "/xrpc/");
    r.append(method);
    r
}

/// Writes the authorization value for a credential.
pub fn bearer_of(credential: &str) -> (r: String)
    ensures
        r@ == bearer(credential@),
{
    join("Bearer ", credential)
}

/// A response as the transport and the decoder hand it over.
#[derive(Debug, PartialEq)]
pub struct Response<T> {
    /// The status code.
    pub status: u16,
    /// The body as received.
    pub raw: String,
    /// The body read as the expected shape, where it has that shape.
    pub value: Option<T>,
    /// The body read as an error object, where it has that shape.
    pub error: Option<ApiError>,
}

/// What came of sending a request: a response, or the cause for which the
/// exchange did not complete.
pub type Outcome<T> = Result<Response<T>, String>;

/// Whether a status code reports success.
pub open spec fn is_success(status: u16) -> bool {
    200 <= status < 300
}

/// What a call returns for an outcome.
///
/// Only a success status with a body of the expected shape yields a value. A
/// success status with another body is a decoding failure that carries the
/// body. A non-success status yields the server's rejection where the body is
/// an error object, and a transport failure that carries the body where it
/// is not.
pub open spec fn verdict<T>(outcome: Outcome<T>) -> Result<T, FailureView> {
    match outcome {
        Err(cause) => Err(FailureView::TransportError(cause@)),
        Ok(response) => if is_success(response.status) {
            match response.value {
                Some(v) => Ok(v),
                None => Err(FailureView::DecodeError(response.raw@)),
            }
        } else {
            match response.error {
                Some(e) => Err(
                    FailureView::RemoteError {
                        kind: e.error@,
                        message: crate::errors::opt_text(e.message),
                    },
                ),
                None => Err(FailureView::TransportError(response.raw@)),
            }
        },
    }
}

/// The result of a call with its failure as texts.
pub open spec fn result_view<T>(r: Result<T, BiskyError>) -> Result<T, FailureView> {
    match r {
        Ok(v) => Ok(v),
        Err(e) => Err(e@),
    }
}

/// Whether a status code reports success: whether the body is to be read as
/// the expected shape rather than as an error object.
pub fn succeeded(status: u16) -> (r: bool)
    ensures
        r == is_success(status),
{
    200 <= status && status < 300
}

/// Turns the outcome of an exchange into the result of the call.
pub fn interpret<T>(outcome: Outcome<T>) -> (r: Result<T, BiskyError>)
    ensures
        result_view(r) == verdict(outcome),
{
    match outcome {
        Err(cause) => Err(BiskyError::TransportError(cause)),
        Ok(response) => {
            if succeeded(response.status) {
                match response.value {
                    Some(v) => Ok(v),
                    None => Err(BiskyError::DecodeError(response.raw)),
                }
            } else {
                match response.error {
                    Some(e) => Err(BiskyError::RemoteError { kind: e.error, message: e.message }),
                    None => Err(BiskyError::TransportError(response.raw)),
                }
            }
        },
    }
}

/// A request that the server rejects with an error object fails with the
/// server's rejection, under the kind that the server named and with the
/// server's message: never as a transport or decoding failure, and whatever
/// else the response holds.
pub proof fn lemma_rejection_keeps_its_kind<T>(response: Response<T>)
    requires
        !is_success(response.status),
        response.error is Some,
    ensures
        verdict(Ok(response)) == Err::<T, FailureView>(
            FailureView::RemoteError {
                kind: response.error->0.error@,
                message: crate::errors::opt_text(response.error->0.message),
            },
        ),
{
}

/// A success response whose body does not have the expected shape fails
/// with a decoding failure that carries the body: never with a value, and
/// never as a rejection, whatever else the response holds.
pub proof fn lemma_mismatch_is_a_decoding_failure<T>(response: Response<T>)
    requires
        is_success(response.status),
        response.value is None,
    ensures
        verdict(Ok(response)) == Err::<T, FailureView>(FailureView::DecodeError(response.raw@)),
{
}

/// A value comes only of a success status with a body of the expected shape,
/// and it is that body's value.
pub proof fn lemma_value_only_on_success<T>(outcome: Outcome<T>)
    requires
        verdict(outcome) is Ok,
    ensures
        outcome matches Ok(response) && is_success(response.status) && response.value == Some(
            verdict(outcome)->Ok_0,
        ),
{
}

} // verus!
