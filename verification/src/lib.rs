//! A small in-process actor runtime.
//!
//! An actor is a value that owns its state exclusively and handles typed
//! requests one at a time, in the order they were enqueued.  Callers never
//! share the actor's state; they talk to it by value, through envelopes
//! placed in a FIFO mailbox, and receive answers through single-use reply
//! promises.
//!
//! This crate holds the verified core of the runtime: the behavior contract
//! ([`Actor`]), the error taxonomy ([`Error`]), the envelope and reply-promise
//! layer ([`Envelope`]), and a sequential mailbox ([`Mailbox`]) that owns an
//! actor together with its queue of pending events and processes envelopes
//! strictly in FIFO order.  The asynchronous front end (a cloneable requestor
//! over a bounded channel and a handle that can abort or await the background
//! task) is a thin shell around these pieces.

pub mod actor;
pub mod envelope;
pub mod error;
pub mod mailbox;

pub use actor::Actor;
pub use envelope::{deliver_reply, event_envelope, request_envelope, Envelope};
pub use envelope::{event_outcome, request_outcome, RequestResult};
pub use error::Error;
pub use mailbox::Mailbox;
