//! A single-consumer mailbox: producers push events onto one unbounded queue,
//! and one dispatcher applies a handler to them, in order, against state that
//! only it owns.

mod channel;

pub mod dispatcher;
pub mod sender;

pub use dispatcher::{Delivery, Dispatcher};
pub use sender::{EnqueueError, Envelope, Sender};
