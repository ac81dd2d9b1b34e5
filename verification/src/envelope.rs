//! Envelopes and reply promises: the units that cross the mailbox queue.
//!
//! An envelope pairs a request value with an optional reply promise.  The
//! promise is present for requests and absent for events; it is a one-shot,
//! single-producer, single-consumer delivery, created fresh per request,
//! fulfilled at most once by the mailbox loop and observed at most once by
//! the requester.  The promise itself comes from the host concurrency
//! runtime; this module states only what its documentation promises and
//! verifies the routing and classification logic around it.

use vstd::prelude::*;

use tokio::sync::oneshot::{Receiver, Sender};

use crate::error::Error;

verus! {

/// tokio's one-shot sender: the fulfilling end of a reply promise, consumed
/// by the single send permitted on it.
#[verifier::external_type_specification]
#[verifier::external_body]
#[verifier::reject_recursive_types(T)]
pub struct ExOneshotSender<T>(tokio::sync::oneshot::Sender<T>);

/// tokio's one-shot receiver: the awaiting end of a reply promise.
#[verifier::external_type_specification]
#[verifier::external_body]
#[verifier::reject_recursive_types(T)]
pub struct ExOneshotReceiver<T>(tokio::sync::oneshot::Receiver<T>);

/// tokio's error for a one-shot promise whose sender was dropped without
/// sending.
#[verifier::external_type_specification]
#[verifier::external_body]
pub struct ExOneshotRecvError(tokio::sync::oneshot::error::RecvError);

/// Relies on tokio::sync::oneshot::channel: creates a connected
/// sender/receiver pair for a single value.
pub assume_specification<T>[ tokio::sync::oneshot::channel::<T> ]() -> (Sender<T>, Receiver<T>);

/// Relies on tokio::sync::oneshot::Sender::send: consumes the sender, and
/// either delivers the value or, when the receiving end is already gone,
/// hands that same value back in `Err`.
pub assume_specification<T>[ Sender::<T>::send ](sender: Sender<T>, value: T) -> (r: Result<
    (),
    T,
>)
    ensures
        r matches Err(v) ==> v == value,
;

/// One unit of the mailbox queue: a request value plus an optional reply
/// promise.  An envelope is created by the sending side and consumed exactly
/// once by the mailbox loop.
#[derive(Debug)]
#[verifier::reject_recursive_types(Rsp)]
pub struct Envelope<Req, Rsp> {
    /// The request value carried to the actor.
    pub request: Req,
    /// The fulfilling end of the reply promise, present only for requests.
    /// Its absence means the mailbox loop cannot report a processing failure
    /// back to the sender; only a failure to enqueue is observable.
    pub responder: Option<Sender<Option<Rsp>>>,
}

impl<Req, Rsp> Envelope<Req, Rsp> {
    /// Whether this envelope carries a reply promise.
    pub open spec fn wants_reply(self) -> bool {
        self.responder is Some
    }
}

/// Build a request envelope around a fresh reply promise, returning the
/// envelope together with the receiving end the requester will await.
pub fn request_envelope<Req, Rsp>(request: Req) -> (r: (
    Envelope<Req, Rsp>,
    Receiver<Option<Rsp>>,
))
    ensures
        r.0.request == request,
        r.0.wants_reply(),
{
    let (reply_tx, reply_rx) = tokio::sync::oneshot::channel();
    (Envelope { request, responder: Some(reply_tx) }, reply_rx)
}

/// Build an event envelope: fire-and-forget, with no reply promise.
pub fn event_envelope<Req, Rsp>(request: Req) -> (e: Envelope<Req, Rsp>)
    ensures
        e.request == request,
        !e.wants_reply(),
{
    Envelope { request, responder: None }
}

/// Route the actor's response once an envelope has been handled: fulfill the
/// reply promise if the envelope carried one — also with `None`, so a
/// request-style interaction always completes — and ignore a fulfilment
/// failure, since the requester may have given up waiting.  Returns whether
/// a fulfilment was attempted.
pub fn deliver_reply<Rsp>(
    responder: Option<Sender<Option<Rsp>>>,
    response: Option<Rsp>,
) -> (delivered: bool)
    ensures
        delivered <==> responder is Some,
{
    match responder {
        Some(reply_tx) => {
            let _ = reply_tx.send(response);
            true
        },
        None => false,
    }
}

/// What a request returns: the actor's optional response, or the error that
/// names the failed leg of the round trip.
pub type RequestResult<Rsp> = Result<Option<Rsp>, Error>;

/// Classify the outcome of a request round trip.  `sent` says whether the
/// envelope was accepted into the queue; `reply` holds what the reply
/// promise yielded, or nothing if the promise was dropped unfulfilled.
/// Enqueueing failure is [`Error::RequestError`]; a dropped promise is
/// [`Error::ResponseError`]; otherwise the actor's optional response comes
/// back as a success, so an empty response is `Ok(None)`, not an error.
pub fn request_outcome<Rsp>(sent: bool, reply: Option<Option<Rsp>>) -> (r: RequestResult<Rsp>)
    ensures
        !sent ==> r == Err::<Option<Rsp>, Error>(Error::RequestError),
        sent ==> r == (match reply {
            Some(response) => Ok::<Option<Rsp>, Error>(response),
            None => Err::<Option<Rsp>, Error>(Error::ResponseError),
        }),
{
    if !sent {
        Err(Error::RequestError)
    } else {
        match reply {
            Some(response) => Ok(response),
            None => Err(Error::ResponseError),
        }
    }
}

/// Classify the outcome of sending an event: only the enqueue attempt is
/// observable, and its failure is [`Error::EventError`].
pub fn event_outcome(sent: bool) -> (r: Result<(), Error>)
    ensures
        sent ==> r == Ok::<(), Error>(()),
        !sent ==> r == Err::<(), Error>(Error::EventError),
{
    if sent {
        Ok(())
    } else {
        Err(Error::EventError)
    }
}

} // verus!
