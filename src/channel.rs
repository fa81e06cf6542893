//! The unbounded queue of `futures`, as the rest of the library sees it.

use futures::channel::mpsc::{TrySendError, UnboundedReceiver, UnboundedSender};
use vstd::prelude::*;

verus! {

#[verifier::external_type_specification]
#[verifier::external_body]
#[verifier::reject_recursive_types(T)]
pub struct ExUnboundedSender<T>(UnboundedSender<T>);

#[verifier::external_type_specification]
#[verifier::external_body]
#[verifier::reject_recursive_types(T)]
pub struct ExUnboundedReceiver<T>(UnboundedReceiver<T>);

#[verifier::external_type_specification]
#[verifier::external_body]
#[verifier::reject_recursive_types(T)]
pub struct ExTrySendError<T>(TrySendError<T>);

/// Relies on futures::channel::mpsc::unbounded: it makes a fresh channel and
/// hands back its sending and its receiving end. Nothing is promised of them.
pub assume_specification<T>[ futures::channel::mpsc::unbounded::<T> ]() -> (UnboundedSender<T>, UnboundedReceiver<T>);

/// Relies on UnboundedSender::unbounded_send, and on TrySendError::into_inner:
/// a message that the channel refuses (its receiver is gone) is handed back
/// unchanged. Whether it is refused depends on the other end, so no more is
/// said. (The channel panics once it holds about usize::MAX / 2 messages,
/// which memory runs out long before.)
#[verifier::external_body]
pub(crate) fn push<T>(tx: &UnboundedSender<T>, msg: T) -> (r: Result<(), T>)
    ensures
        r is Err ==> r->Err_0 == msg,
{
    match tx.unbounded_send(msg) {
        Ok(()) => Ok(()),
        Err(e) => Err(e.into_inner()),
    }
}

} // verus!
