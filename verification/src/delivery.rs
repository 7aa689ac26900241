//! Receipts of the calls that hand a message to an observer. A receipt can
//! only be obtained from the functions here, and each of them makes the
//! observer's callback call it records, so a log of receipts lists calls
//! that were made.
use vstd::prelude::*;
use std::sync::Arc;
use crate::counter_vm::{CounterObserver, CounterState};
use crate::list_vm::{ListDiff, ListObserver};

verus! {

/// A record that `message` was handed to the observer `to`, subscribed at
/// `index`, by a call of its callback.
pub struct Receipt<O: ?Sized, T> {
    to: Ghost<Arc<O>>,
    index: Ghost<nat>,
    message: Ghost<T>,
}

impl<O: ?Sized, T> Receipt<O, T> {
    /// The observer whose callback was called.
    pub closed spec fn to(&self) -> Arc<O> {
        self.to@
    }

    /// The subscription index the call was made for.
    pub closed spec fn index(&self) -> nat {
        self.index@
    }

    /// What the callback was handed.
    pub closed spec fn message(&self) -> T {
        self.message@
    }
}

/// Calls `observer.on_diffs(diffs)` and returns the receipt of that call.
pub(crate) fn deliver_diffs<O: ?Sized + ListObserver>(
    observer: &Arc<O>,
    diffs: Vec<ListDiff>,
    Ghost(index): Ghost<nat>,
) -> (r: Receipt<O, Seq<ListDiff>>)
    ensures
        r.to() == *observer,
        r.index() == index,
        r.message() == diffs@,
{
    let receipt = Receipt { to: Ghost(*observer), index: Ghost(index), message: Ghost(diffs@) };
    observer.on_diffs(diffs);
    receipt
}

/// Calls `observer.on_state(state)` and returns the receipt of that call,
/// which records the counter value handed over.
pub(crate) fn deliver_state<O: ?Sized + CounterObserver>(
    observer: &Arc<O>,
    state: CounterState,
    Ghost(index): Ghost<nat>,
) -> (r: Receipt<O, i32>)
    ensures
        r.to() == *observer,
        r.index() == index,
        r.message() == state.value,
{
    let receipt = Receipt { to: Ghost(*observer), index: Ghost(index), message: Ghost(state.value) };
    observer.on_state(state);
    receipt
}

} // verus!
