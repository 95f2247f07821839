use vstd::prelude::*;

use futures::sync::mpsc::{UnboundedReceiver, UnboundedSender};

verus! {

#[verifier::external_type_specification]
#[verifier::external_body]
#[verifier::reject_recursive_types(T)]
pub struct ExUnboundedSender<T>(UnboundedSender<T>);

#[verifier::external_type_specification]
#[verifier::external_body]
#[verifier::reject_recursive_types(T)]
pub struct ExUnboundedReceiver<T>(UnboundedReceiver<T>);

/// Relies on futures::sync::mpsc::unbounded: a fresh, empty, open channel.
/// Nothing about the two halves is visible here.
#[verifier::external_body]
pub(crate) fn unbounded<T>() -> (r: (UnboundedSender<T>, UnboundedReceiver<T>)) {
    futures::sync::mpsc::unbounded()
}

/// Relies on futures::sync::mpsc::UnboundedSender::unbounded_send: it never
/// blocks, and where the receiving half is gone it fails with a `SendError`
/// whose `into_inner` is the item that was not sent. (It panics only once the
/// channel's message count overflows its state word, which no caller can see.)
#[verifier::external_body]
pub(crate) fn unbounded_send<T>(tx: &UnboundedSender<T>, item: T) -> (r: Result<(), T>)
    ensures
        r matches Err(back) ==> back == item,
{
    tx.unbounded_send(item).map_err(|e| e.into_inner())
}

/// Relies on the `Clone` impl of futures::sync::mpsc::UnboundedSender: another
/// sender into the same channel.
#[verifier::external_body]
pub(crate) fn clone_sender<T>(tx: &UnboundedSender<T>) -> (r: UnboundedSender<T>) {
    tx.clone()
}

} // verus!
