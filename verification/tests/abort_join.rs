use atticus::{Actor, Error, Mailbox};

struct Echoer;

impl Actor for Echoer {
    type Request = i32;
    type Response = i32;

    fn next(self, _request: i32) -> Self {
        self
    }

    fn answer(self, request: i32) -> Option<i32> {
        Some(request)
    }

    fn handle(&mut self, message: i32) -> Option<i32> {
        Some(message)
    }
}

#[test]
fn returns_error_on_request() {
    let mut mailbox = Mailbox::new(Echoer, 1);
    mailbox.abort();
    let response = mailbox.request(3);
    assert!(response.is_err());
    assert_eq!(response, Err(Error::RequestError));
}

#[test]
fn abort_discards_pending_events() {
    let mut mailbox = Mailbox::new(Echoer, 4);
    assert_eq!(mailbox.send_event(1), Ok(()));
    mailbox.abort();
    assert_eq!(mailbox.request(2), Err(Error::RequestError));
}
