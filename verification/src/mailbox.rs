//! A sequential mailbox: an actor bound exclusively to its FIFO queue.
//!
//! The mailbox owns the actor for the whole run; no other component ever
//! holds a reference to it.  Envelopes are handled strictly in the order
//! they were enqueued, one at a time, so handling is serialized and never
//! reentrant.  Events are fire-and-forget envelopes that wait in the queue;
//! a request is answered only after every envelope enqueued before it has
//! been handled, which gives read-your-writes consistency to a caller that
//! sends an event and then asks the actor for its state.

use vstd::prelude::*;

use crate::actor::Actor;
use crate::error::Error;

verus! {

/// The actor state reached by handling `requests` in order, starting from
/// `actor`.
pub open spec fn run_all<A: Actor>(actor: A, requests: Seq<A::Request>) -> A
    decreases requests.len(),
{
    if requests.len() == 0 {
        actor
    } else {
        run_all(actor.next(requests[0]), requests.drop_first())
    }
}

/// The responses produced by handling `requests` in order, starting from
/// `actor`: one entry per request, each the answer of the state that the
/// earlier requests reached.
pub open spec fn responses_of<A: Actor>(actor: A, requests: Seq<A::Request>) -> Seq<
    Option<A::Response>,
>
    decreases requests.len(),
{
    if requests.len() == 0 {
        Seq::empty()
    } else {
        seq![actor.answer(requests[0])] + responses_of(
            actor.next(requests[0]),
            requests.drop_first(),
        )
    }
}

/// An actor bound to a bounded FIFO queue of pending envelopes.
///
/// `capacity` is the number of envelopes that may wait in the buffer; when
/// the buffer is full, enqueueing an event first forces the oldest envelope
/// to be handled, the sequential form of producer backpressure.
pub struct Mailbox<A: Actor> {
    actor: A,
    queue: Vec<A::Request>,
    capacity: usize,
    live: bool,
}

impl<A: Actor> Mailbox<A> {
    /// The actor currently owned by this mailbox.
    pub closed spec fn actor_state(self) -> A {
        self.actor
    }

    /// The requests enqueued and not yet handled, oldest first.
    pub closed spec fn pending(self) -> Seq<A::Request> {
        self.queue@
    }

    /// Whether the run is still live: a mailbox stops accepting envelopes
    /// once it has been aborted.
    pub closed spec fn is_live(self) -> bool {
        self.live
    }

    /// The buffer capacity this mailbox was created with.
    pub closed spec fn buffer(self) -> int {
        self.capacity as int
    }

    /// Well-formedness: the capacity is positive and the queue never holds
    /// more envelopes than it.
    pub closed spec fn wf(self) -> bool {
        1 <= self.capacity && self.queue@.len() <= self.capacity
    }

    /// Bind `actor` to a fresh mailbox with an empty queue.
    pub fn new(actor: A, capacity: usize) -> (m: Mailbox<A>)
        requires
            1 <= capacity,
        ensures
            m.wf(),
            m.is_live(),
            m.actor_state() == actor,
            m.pending() == Seq::<A::Request>::empty(),
            m.buffer() == capacity,
    {
        Mailbox { actor, queue: Vec::new(), capacity, live: true }
    }

    /// The receive loop: handle every pending envelope, oldest first, until
    /// the queue is empty.  Responses to events go nowhere; an event carries
    /// no reply promise, so a failure to process one is not observable.
    pub fn run_pending(&mut self)
        requires
            old(self).wf(),
        ensures
            final(self).wf(),
            final(self).is_live() == old(self).is_live(),
            final(self).buffer() == old(self).buffer(),
            final(self).pending() == Seq::<A::Request>::empty(),
            final(self).actor_state() == run_all(old(self).actor_state(), old(self).pending()),
    {
        let ghost orig_actor = self.actor;
        let ghost orig_queue = self.queue@;
        let ghost orig_live = self.live;
        let ghost orig_capacity = self.capacity;
        while self.queue.len() > 0
            invariant
                self.wf(),
                self.live == orig_live,
                self.capacity == orig_capacity,
                run_all(self.actor, self.queue@) == run_all(orig_actor, orig_queue),
            decreases self.queue.len(),
        {
            let ghost before = self.queue@;
            let message = self.queue.remove(0);
            proof {
                assert(before.remove(0) =~= before.drop_first());
            }
            let _ = self.actor.handle(message);
        }
    }

    /// Send a request and wait for its reply.
    ///
    /// On a live mailbox every envelope enqueued earlier is handled first,
    /// in FIFO order, then the request itself; the reply is exactly the
    /// actor's answer, so an actor that returns no response yields
    /// `Ok(None)`, which is a success, not an error.  On a mailbox that is
    /// no longer live nothing is enqueued and the call reports
    /// [`Error::RequestError`].
    pub fn request(&mut self, request: A::Request) -> (r: Result<Option<A::Response>, Error>)
        requires
            old(self).wf(),
        ensures
            final(self).wf(),
            final(self).buffer() == old(self).buffer(),
            !old(self).is_live() ==> ({
                &&& r == Err::<Option<A::Response>, Error>(Error::RequestError)
                &&& final(self).pending() == old(self).pending()
                &&& final(self).actor_state() == old(self).actor_state()
                &&& !final(self).is_live()
            }),
            old(self).is_live() ==> ({
                let served = run_all(old(self).actor_state(), old(self).pending());
                &&& r == Ok::<Option<A::Response>, Error>(served.answer(request))
                &&& final(self).actor_state() == served.next(request)
                &&& final(self).pending() == Seq::<A::Request>::empty()
                &&& final(self).is_live()
            }),
    {
        if !self.live {
            return Err(Error::RequestError);
        }
        self.run_pending();
        let response = self.actor.handle(request);
        Ok(response)
    }

    /// Enqueue a fire-and-forget event.
    ///
    /// Success means only that the envelope was accepted into the queue, not
    /// that the actor has handled it; the event is handled, in FIFO order,
    /// when the queue is next drained.  If the buffer is already full the
    /// oldest envelope is handled first to make room (backpressure).  On a
    /// mailbox that is no longer live nothing is enqueued and the call
    /// reports [`Error::EventError`].
    pub fn send_event(&mut self, event: A::Request) -> (r: Result<(), Error>)
        requires
            old(self).wf(),
        ensures
            final(self).wf(),
            final(self).buffer() == old(self).buffer(),
            !old(self).is_live() ==> ({
                &&& r == Err::<(), Error>(Error::EventError)
                &&& final(self).pending() == old(self).pending()
                &&& final(self).actor_state() == old(self).actor_state()
                &&& !final(self).is_live()
            }),
            old(self).is_live() ==> ({
                let stepped: int = if old(self).pending().len() == old(self).buffer() {
                    1
                } else {
                    0
                };
                &&& r == Ok::<(), Error>(())
                &&& final(self).is_live()
                &&& final(self).pending() == old(self).pending().skip(stepped).push(event)
                &&& final(self).actor_state() == run_all(
                    old(self).actor_state(),
                    old(self).pending().take(stepped),
                )
            }),
    {
        if !self.live {
            return Err(Error::EventError);
        }
        if self.queue.len() == self.capacity {
            let ghost before = self.queue@;
            let ghost served = self.actor;
            let message = self.queue.remove(0);
            proof {
                assert(before.remove(0) =~= before.skip(1));
            }
            let _ = self.actor.handle(message);
            proof {
                assert(before.take(1) =~= seq![before[0]]);
                assert(run_all(served, seq![before[0]]) == run_all(
                    served.next(before[0]),
                    seq![before[0]].drop_first(),
                ));
                assert(seq![before[0]].drop_first() =~= Seq::<A::Request>::empty());
                assert(run_all(served.next(before[0]), Seq::<A::Request>::empty())
                    == served.next(before[0]));
            }
        } else {
            proof {
                assert(self.queue@.skip(0) =~= self.queue@);
            }
        }
        self.queue.push(event);
        Ok(())
    }

    /// Forcibly end the run.  The mailbox stops accepting envelopes, and
    /// every pending envelope is abandoned unprocessed; whatever the actor
    /// has already done is not rolled back.
    pub fn abort(&mut self)
        requires
            old(self).wf(),
        ensures
            final(self).wf(),
            final(self).buffer() == old(self).buffer(),
            !final(self).is_live(),
            final(self).pending() == Seq::<A::Request>::empty(),
            final(self).actor_state() == old(self).actor_state(),
    {
        self.live = false;
        self.queue.clear();
    }
}

/// Law of FIFO composition: handling one batch of requests and then another
/// reaches the same actor state as handling their concatenation in order.
pub proof fn lemma_run_all_append<A: Actor>(
    actor: A,
    front: Seq<A::Request>,
    back: Seq<A::Request>,
)
    ensures
        run_all(actor, front + back) == run_all(run_all(actor, front), back),
    decreases front.len(),
{
    if front.len() == 0 {
        assert(front + back =~= back);
    } else {
        assert((front + back).drop_first() =~= front.drop_first() + back);
        lemma_run_all_append(actor.next(front[0]), front.drop_first(), back);
    }
}

/// Law of same-producer ordering: an event enqueued before a request is
/// handled before it, so the state that answers a later request has already
/// absorbed the event.
pub proof fn lemma_event_visible<A: Actor>(actor: A, pending: Seq<A::Request>, event: A::Request)
    ensures
        run_all(actor, pending.push(event)) == run_all(actor, pending).next(event),
{
    assert(pending.push(event) =~= pending + seq![event]);
    lemma_run_all_append(actor, pending, seq![event]);
    let served = run_all(actor, pending);
    assert(seq![event].drop_first() =~= Seq::<A::Request>::empty());
    assert(run_all(served, seq![event]) == run_all(served.next(event), Seq::empty()));
}

/// The batch of requests and its batch of responses have the same length:
/// no request is dropped and none is answered twice.
pub proof fn lemma_responses_len<A: Actor>(actor: A, requests: Seq<A::Request>)
    ensures
        responses_of(actor, requests).len() == requests.len(),
    decreases requests.len(),
{
    if requests.len() > 0 {
        lemma_responses_len(actor.next(requests[0]), requests.drop_first());
    }
}

/// Law of FIFO responses: when requests are handled in the order they were
/// issued, the response at each position is the answer of the actor state
/// reached by exactly the requests before it — no reordering.
pub proof fn lemma_fifo_responses<A: Actor>(actor: A, requests: Seq<A::Request>, i: int)
    requires
        0 <= i < requests.len(),
    ensures
        responses_of(actor, requests)[i] == run_all(actor, requests.take(i)).answer(requests[i]),
    decreases i,
{
    if i == 0 {
        assert(requests.take(0) =~= Seq::<A::Request>::empty());
    } else {
        let rest = requests.drop_first();
        lemma_responses_len(actor, requests);
        lemma_responses_len(actor.next(requests[0]), rest);
        lemma_fifo_responses(actor.next(requests[0]), rest, i - 1);
        assert(responses_of(actor, requests)[i] == responses_of(actor.next(requests[0]), rest)[i
            - 1]);
        assert(rest.take(i - 1) =~= requests.take(i).drop_first());
        assert(rest[i - 1] == requests[i]);
        assert(requests.take(i)[0] == requests[0]);
    }
}

} // verus!
