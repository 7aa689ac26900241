//! The example state view model: a counter whose every new state is handed to
//! the subscribed observers.
use vstd::prelude::*;
use std::sync::Arc;
use crate::delivery::{deliver_state, Receipt};

verus! {

/// The state of the counter.
#[derive(Clone, Copy, Debug)]
pub struct CounterState {
    pub value: i32,
}

/// Receives the states of a counter view model.
pub trait CounterObserver: Send + Sync {
    fn on_state(&self, state: CounterState);
}

/// A deliveries log entry: the index of the observer and the counter value it
/// received.
pub type StateDelivery = (nat, i32);

/// `value` delivered to each of the first `n` observers, in subscription order.
pub open spec fn state_broadcast(n: nat, value: i32) -> Seq<StateDelivery> {
    Seq::new(n, |i: int| (i as nat, value))
}

/// The counter view model of the example app; `O` is the observer type, a
/// trait object unless a caller fixes it.
pub struct CounterViewModel<O: ?Sized + CounterObserver = dyn CounterObserver> {
    state: CounterState,
    observers: Vec<Arc<O>>,
    receipts: Vec<Receipt<O, i32>>,
}

impl CounterViewModel {
    /// A counter starting at `initial`, with no observers.
    pub fn new(initial: i32) -> (vm: Self)
        ensures
            vm.value() == initial,
            vm.observer_count() == 0,
            vm.delivered() == Seq::<StateDelivery>::empty(),
            vm.genuine(),
    {
        let vm = CounterViewModel {
            state: CounterState { value: initial },
            observers: Vec::new(),
            receipts: Vec::new(),
        };
        assert(vm.delivered() =~= Seq::<StateDelivery>::empty());
        vm
    }
}

impl<O: ?Sized + CounterObserver> CounterViewModel<O> {
    /// The current counter value.
    pub closed spec fn value(&self) -> i32 {
        self.state.value
    }

    /// How many observers are subscribed.
    pub closed spec fn observer_count(&self) -> nat {
        self.observers@.len()
    }

    /// Every state handed to an observer so far, in order: the receipts of
    /// the `on_state` calls made, each with its subscription index.
    pub closed spec fn delivered(&self) -> Seq<StateDelivery> {
        self.receipts@.map_values(|r: Receipt<O, i32>| (r.index(), r.message()))
    }

    /// The observer whose callback the `i`-th delivery called.
    pub closed spec fn recipient(&self, i: int) -> Arc<O> {
        self.receipts@[i].to()
    }

    /// The observer subscribed at index `k`.
    pub closed spec fn observer(&self, k: nat) -> Arc<O> {
        self.observers@[k as int]
    }

    /// Every delivery on record called the callback of the observer
    /// subscribed at its index.
    pub open spec fn genuine(&self) -> bool {
        forall|i: int|
            #![trigger self.delivered()[i]]
            0 <= i < self.delivered().len() ==> self.delivered()[i].0 < self.observer_count()
                && self.recipient(i) == self.observer(self.delivered()[i].0)
    }

    /// Adds an observer and hands it the current state.
    pub fn subscribe(&mut self, observer: Arc<O>)
        ensures
            final(self).value() == old(self).value(),
            final(self).observer_count() == old(self).observer_count() + 1,
            final(self).delivered() == old(self).delivered().push(
                (old(self).observer_count(), old(self).value()),
            ),
            old(self).genuine() ==> final(self).genuine(),
    {
        let index = self.observers.len();
        self.observers.push(observer);
        let current = self.get_state();
        let receipt = deliver_state(&self.observers[index], current, Ghost(index as nat));
        let ghost before = self.receipts@;
        self.receipts.push(receipt);
        assert(self.delivered() =~= old(self).delivered().push((index as nat, current.value)));
        proof {
            if old(self).genuine() {
                assert forall|i: int| 0 <= i < self.delivered().len() implies #[trigger] self.delivered()[i].0
                    < self.observer_count() && self.recipient(i) == self.observer(
                    self.delivered()[i].0,
                ) by {
                    if i < before.len() {
                        assert(self.receipts@[i] == before[i]);
                        assert(old(self).recipient(i) == old(self).observer(
                            old(self).delivered()[i].0,
                        ));
                        assert(self.observers@[old(self).delivered()[i].0 as int]
                            == old(self).observers@[old(self).delivered()[i].0 as int]);
                    }
                }
            }
        }
    }

    /// Adds one to the counter, hands the new state to every observer and
    /// returns it.
    pub fn increment(&mut self) -> (state: CounterState)
        requires
            old(self).value() < i32::MAX,
        ensures
            state.value == old(self).value() + 1,
            final(self).value() == state.value,
            final(self).observer_count() == old(self).observer_count(),
            final(self).delivered() == old(self).delivered() + state_broadcast(
                old(self).observer_count(),
                state.value,
            ),
            old(self).genuine() ==> final(self).genuine(),
    {
        self.state.value = self.state.value + 1;
        let new_state = self.state;
        self.notify_state(new_state);
        new_state
    }

    /// The current state.
    pub fn get_state(&self) -> (state: CounterState)
        ensures
            state.value == self.value(),
    {
        self.state
    }

    fn notify_state(&mut self, state: CounterState)
        ensures
            final(self).value() == old(self).value(),
            final(self).observer_count() == old(self).observer_count(),
            final(self).delivered() == old(self).delivered() + state_broadcast(
                old(self).observer_count(),
                state.value,
            ),
            old(self).genuine() ==> final(self).genuine(),
    {
        let ghost start = self.delivered();
        let mut i: usize = 0;
        while i < self.observers.len()
            invariant
                i <= self.observers@.len(),
                self.state == old(self).state,
                self.observers@ == old(self).observers@,
                self.delivered() == start + state_broadcast(i as nat, state.value),
                start == old(self).delivered(),
                old(self).genuine() ==> self.genuine(),
            decreases self.observers@.len() - i,
        {
            let receipt = deliver_state(&self.observers[i], state, Ghost(i as nat));
            let ghost before = *self;
            self.receipts.push(receipt);
            proof {
                assert(self.delivered() =~= before.delivered().push((i as nat, state.value)));
                assert(start + state_broadcast((i + 1) as nat, state.value) =~= (start
                    + state_broadcast(i as nat, state.value)).push((i as nat, state.value)));
                if old(self).genuine() {
                    assert forall|j: int| 0 <= j < self.delivered().len() implies #[trigger] self.delivered()[j].0
                        < self.observer_count() && self.recipient(j) == self.observer(
                        self.delivered()[j].0,
                    ) by {
                        if j < before.receipts@.len() {
                            assert(self.receipts@[j] == before.receipts@[j]);
                            assert(before.recipient(j) == before.observer(before.delivered()[j].0));
                        }
                    }
                }
            }
            i = i + 1;
        }
    }
}

} // verus!
