//! The error taxonomy: the three failure kinds this runtime surfaces.

use vstd::prelude::*;

verus! {

/// The failures a caller can observe.  Each is returned as an ordinary value;
/// this layer never panics and never fails silently.
#[derive(Debug, Clone, PartialEq, Eq, Structural)]
pub enum Error {
    /// Enqueueing a request envelope failed: the actor's task has already
    /// ended, so the mailbox accepts nothing more.
    RequestError,
    /// A request was accepted, but the reply promise was dropped before it
    /// was fulfilled: the task ended (or was aborted) between dequeue and
    /// reply, so the outcome of that request is lost.
    ResponseError,
    /// Enqueueing an event envelope failed: same root cause as
    /// [`Error::RequestError`], reported for the fire-and-forget path.
    EventError,
}

impl Error {
    /// A one-line description of the failure.
    pub fn message(&self) -> (m: &'static str)
        ensures
            self is RequestError ==> m@ == "Problem in sending a Request to the Actor"@,
            self is ResponseError ==> m@ == "Problem in receiving a Response from the Actor"@,
            self is EventError ==> m@ == "Problem in sending an event to the Actor"@,
    {
        match self {
            Error::RequestError => "Problem in sending a Request to the Actor",
            Error::ResponseError => "Problem in receiving a Response from the Actor",
            Error::EventError => "Problem in sending an event to the Actor",
        }
    }
}

} // verus!
