use atticus::{Actor, Envelope, Error, Mailbox};

#[derive(Debug)]
struct NormalType;

impl Actor for NormalType {
    type Request = usize;
    type Response = bool;

    fn next(self, _request: usize) -> Self {
        self
    }

    fn answer(self, _request: usize) -> Option<bool> {
        unreachable!()
    }

    fn handle(&mut self, _message: usize) -> Option<bool> {
        unreachable!()
    }
}

fn is_send_sync<T: Sized + Send + Sync + Unpin>() {}

fn impls_or_derives_debug<T: std::fmt::Debug>() {}

#[test]
fn test_public_types() {
    is_send_sync::<Mailbox<NormalType>>();
    is_send_sync::<Envelope<usize, bool>>();
    is_send_sync::<Error>();
}

#[test]
fn test_impls_debug() {
    impls_or_derives_debug::<Envelope<usize, bool>>();
    impls_or_derives_debug::<Error>();
}
