use atticus::{deliver_reply, event_envelope, event_outcome, request_envelope, request_outcome};
use atticus::Error;

#[test]
fn reply_promise_round_trip() {
    let (envelope, receiver) = request_envelope::<i32, i32>(9);
    assert_eq!(envelope.request, 9);
    assert!(envelope.responder.is_some());
    let delivered = deliver_reply(envelope.responder, Some(42));
    assert!(delivered);
    assert_eq!(receiver.blocking_recv().unwrap(), Some(42));
}

#[test]
fn reply_promise_carries_empty_response() {
    let (envelope, receiver) = request_envelope::<i32, i32>(1);
    let delivered = deliver_reply(envelope.responder, None);
    assert!(delivered);
    assert_eq!(receiver.blocking_recv().unwrap(), None);
}

#[test]
fn dropped_promise_is_observable() {
    let (envelope, receiver) = request_envelope::<i32, i32>(1);
    drop(envelope);
    assert!(receiver.blocking_recv().is_err());
}

#[test]
fn event_envelope_carries_no_promise() {
    let envelope = event_envelope::<i32, i32>(7);
    assert_eq!(envelope.request, 7);
    assert!(envelope.responder.is_none());
    let delivered = deliver_reply(envelope.responder, Some(0));
    assert!(!delivered);
}

#[test]
fn delivery_to_a_gone_requester_is_ignored() {
    let (envelope, receiver) = request_envelope::<i32, i32>(2);
    drop(receiver);
    let delivered = deliver_reply(envelope.responder, Some(5));
    assert!(delivered);
}

#[test]
fn request_outcome_classifies_each_leg() {
    assert_eq!(request_outcome::<i32>(false, None), Err(Error::RequestError));
    assert_eq!(request_outcome::<i32>(true, None), Err(Error::ResponseError));
    assert_eq!(request_outcome::<i32>(true, Some(Some(3))), Ok(Some(3)));
    assert_eq!(request_outcome::<i32>(true, Some(None)), Ok(None));
}

#[test]
fn event_outcome_classifies_enqueueing() {
    assert_eq!(event_outcome(true), Ok(()));
    assert_eq!(event_outcome(false), Err(Error::EventError));
}

#[test]
fn error_messages() {
    assert_eq!(
        Error::RequestError.message(),
        "Problem in sending a Request to the Actor"
    );
    assert_eq!(
        Error::ResponseError.message(),
        "Problem in receiving a Response from the Actor"
    );
    assert_eq!(
        Error::EventError.message(),
        "Problem in sending an event to the Actor"
    );
}
