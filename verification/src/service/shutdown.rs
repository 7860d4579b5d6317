use vstd::prelude::*;

use crate::service::signal::Signal;

verus! {

#[verifier::external_type_specification]
#[verifier::external_body]
#[verifier::reject_recursive_types(T)]
pub struct ExMutex<T: ?Sized>(tokio::sync::Mutex<T>);

#[verifier::external_type_specification]
#[verifier::external_body]
#[verifier::reject_recursive_types(T)]
pub struct ExWatchSender<T>(tokio::sync::watch::Sender<T>);

/// Where a serving server keeps the sender that ends its serving; empty until it serves.
pub type ShutdownSlot = std::sync::Arc<tokio::sync::Mutex<Option<tokio::sync::watch::Sender<Option<()>>>>>;

/// `tokio::sync::Mutex::new` of no sender. What the lock holds can change behind a shared
/// reference, so nothing is stated of it here.
#[verifier::external_body]
fn empty_slot_mutex() -> (m: tokio::sync::Mutex<Option<tokio::sync::watch::Sender<Option<()>>>>) {
    tokio::sync::Mutex::new(None)
}

/// A slot holding no sender yet.
pub fn empty_shutdown_slot() -> (slot: ShutdownSlot) {
    std::sync::Arc::new(empty_slot_mutex())
}

/// What a signal takes from the slot, and what it leaves there: a terminating signal takes
/// what is there and leaves nothing; another takes nothing.
pub open spec fn spec_take_on_terminate<T>(slot: Option<T>, signal: Signal) -> (Option<T>, Option<T>) {
    if signal.spec_is_terminate() {
        (slot, None)
    } else {
        (None, slot)
    }
}

/// What a server keeps so that a signal can stop it: the sender that ends its serving is
/// handed out on a terminating signal.
pub fn take_on_terminate<T>(slot: &mut Option<T>, signal: &Signal) -> (taken: Option<T>)
    ensures
        (taken, *final(slot)) == spec_take_on_terminate(*old(slot), *signal),
{
    if signal.is_terminate() {
        slot.take()
    } else {
        None
    }
}

/// The sender is handed out at most once: after a terminating signal, no later signal takes
/// anything, until the slot is filled again; and signals that do not terminate leave the
/// sender for the one that does.
pub proof fn lemma_taken_once<T>(slot: Option<T>, first: Signal, second: Signal)
    ensures
        first.spec_is_terminate() ==> spec_take_on_terminate(spec_take_on_terminate(slot, first).1, second).0
            is None,
        !first.spec_is_terminate() && second.spec_is_terminate() ==> spec_take_on_terminate(
            spec_take_on_terminate(slot, first).1,
            second,
        ).0 == slot,
{
}

} // verus!
