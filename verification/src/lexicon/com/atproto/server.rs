//! `com.atproto.server`: sessions.

use vstd::prelude::*;

verus! {

/// The input of `createSession`.
#[derive(Debug, PartialEq)]
pub struct CreateSession<'a> {
    pub identifier: &'a str,
    pub password: &'a str,
}

/// An authenticated identity and its credentials.
#[derive(Debug, Clone, PartialEq)]
pub struct Session {
    /// The stable identifier of the actor.
    pub did: String,
    pub handle: String,
    /// The credential that authorizes requests.
    pub access_jwt: String,
    /// The credential that obtains a new session.
    pub refresh_jwt: String,
}

} // verus!
