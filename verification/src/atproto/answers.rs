//! What the operations return, once the outcome of their call is at hand:
//! the part of an output that the caller asked for, or the failure.

use crate::atproto::xrpc::{interpret, result_view, verdict, Outcome};
use crate::errors::{BiskyError, FailureView};
use crate::lexicon::app::bsky::actor::ProfileView;
use crate::lexicon::app::bsky::feed::{
    GetLikesLike, GetLikesOutput, GetPostThreadOutput, ThreadViewPostEnum,
};
use crate::lexicon::app::bsky::graph::{GetFollowersOutput, GetFollowsOutput};
use crate::lexicon::app::bsky::notification::{ListNotificationsOutput, Notification};
use crate::lexicon::com::atproto::identity::ResolveHandleOutput;
use crate::lexicon::com::atproto::repo::{ListRecordsOutput, Record};
use vstd::prelude::*;

verus! {

/// A part of what an outcome amounts to.
pub open spec fn part<T, P>(outcome: Outcome<T>, of: spec_fn(T) -> P) -> Result<P, FailureView> {
    match verdict(outcome) {
        Ok(output) => Ok(of(output)),
        Err(e) => Err(e),
    }
}

/// The records of a listed page.
pub fn records_of<T>(outcome: Outcome<ListRecordsOutput<T>>) -> (r: Result<
    Vec<Record<T>>,
    BiskyError,
>)
    ensures
        result_view(r) == part(outcome, |output: ListRecordsOutput<T>| output.records),
{
    match interpret(outcome) {
        Ok(output) => Ok(output.records),
        Err(e) => Err(e),
    }
}

/// The notifications of a listed page.
pub fn notifications_of<T>(outcome: Outcome<ListNotificationsOutput<T>>) -> (r: Result<
    Vec<Notification<T>>,
    BiskyError,
>)
    ensures
        result_view(r) == part(
            outcome,
            |output: ListNotificationsOutput<T>| output.notifications,
        ),
{
    match interpret(outcome) {
        Ok(output) => Ok(output.notifications),
        Err(e) => Err(e),
    }
}

/// The likes of a listed page.
pub fn likes_of(outcome: Outcome<GetLikesOutput>) -> (r: Result<Vec<GetLikesLike>, BiskyError>)
    ensures
        result_view(r) == part(outcome, |output: GetLikesOutput| output.likes),
{
    match interpret(outcome) {
        Ok(output) => Ok(output.likes),
        Err(e) => Err(e),
    }
}

/// The followed actors of a listed page.
pub fn follows_of(outcome: Outcome<GetFollowsOutput>) -> (r: Result<Vec<ProfileView>, BiskyError>)
    ensures
        result_view(r) == part(outcome, |output: GetFollowsOutput| output.follows),
{
    match interpret(outcome) {
        Ok(output) => Ok(output.follows),
        Err(e) => Err(e),
    }
}

/// The following actors of a listed page.
pub fn followers_of(outcome: Outcome<GetFollowersOutput>) -> (r: Result<
    Vec<ProfileView>,
    BiskyError,
>)
    ensures
        result_view(r) == part(outcome, |output: GetFollowersOutput| output.followers),
{
    match interpret(outcome) {
        Ok(output) => Ok(output.followers),
        Err(e) => Err(e),
    }
}

/// The identifier of the actor behind a resolved handle.
pub fn did_of(outcome: Outcome<ResolveHandleOutput>) -> (r: Result<String, BiskyError>)
    ensures
        result_view(r) == part(outcome, |output: ResolveHandleOutput| output.did),
{
    match interpret(outcome) {
        Ok(output) => Ok(output.did),
        Err(e) => Err(e),
    }
}

/// The thread that was asked for.
pub fn thread_of(outcome: Outcome<GetPostThreadOutput>) -> (r: Result<
    ThreadViewPostEnum,
    BiskyError,
>)
    ensures
        result_view(r) == part(outcome, |output: GetPostThreadOutput| output.thread),
{
    match interpret(outcome) {
        Ok(output) => Ok(output.thread),
        Err(e) => Err(e),
    }
}

} // verus!
