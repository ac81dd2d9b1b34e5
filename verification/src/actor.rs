//! The behavior contract a domain type implements to become schedulable.

use vstd::prelude::*;

verus! {

/// The polymorphic interface between the runtime and a domain actor.
///
/// An actor owns its state exclusively: the runtime invokes [`Actor::handle`]
/// with exclusive mutable access, one envelope at a time, so handling is
/// serialized and never reentrant.  Returning `None` is a valid terminal
/// outcome for an envelope: a request-style call still completes, with an
/// empty reply.
///
/// The two spec functions name, for each implementation, the state the actor
/// steps to and the answer it gives when it handles a request; `handle` must
/// agree with both.  An implementation that lives outside the verifier's
/// reach is not checked against this contract and must honor it itself.
pub trait Actor: Sized {
    /// The type of request this actor can process.
    type Request;

    /// The type of response this actor returns.
    type Response;

    /// The state this actor reaches by handling `request`.
    spec fn next(self, request: Self::Request) -> Self;

    /// The optional response this actor gives to `request`.
    spec fn answer(self, request: Self::Request) -> Option<Self::Response>;

    /// Handle one request, with exclusive access to the actor's state, and
    /// return the optional response.
    fn handle(&mut self, message: Self::Request) -> (response: Option<Self::Response>)
        ensures
            *final(self) == old(self).next(message),
            response == old(self).answer(message),
    ;
}

} // verus!
