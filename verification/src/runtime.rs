//! Runtime support for Rust SDKs: the observer set behind state and diff
//! notifications, and the metadata array printed by SDK metadata binaries.
use vstd::prelude::*;
use std::sync::Arc;
use std::collections::HashMap;
use vstd::std_specs::hash::spec_values_iter;
use vstd::std_specs::iter::IteratorSpec;
use vstd::rwlock::{RwLock, RwLockPredicate};
use crate::text::join;

verus! {

/// Stable subscription identifier used by generated platform bridges.
pub type SubscriptionId = i64;

// ---------------------------------------------------------------------------
// The registry: who is subscribed, under which id.
// ---------------------------------------------------------------------------

/// The subscriptions of an observer set, keyed by id, and the next id.
pub struct Registry<O: ?Sized> {
    observers: HashMap<SubscriptionId, Arc<O>>,
    next_id: SubscriptionId,
}

impl<O: ?Sized> Registry<O> {
    /// The subscribed observers by id.
    pub closed spec fn subscriptions(&self) -> Map<SubscriptionId, Arc<O>> {
        self.observers@
    }

    /// The id the next subscription gets.
    pub closed spec fn next_id(&self) -> SubscriptionId {
        self.next_id
    }

    /// Ids are positive and below the next id.
    pub open spec fn wf(&self) -> bool {
        &&& 1 <= self.next_id()
        &&& forall|id: SubscriptionId|
            #[trigger] self.subscriptions().dom().contains(id) ==> 1 <= id < self.next_id()
    }

    /// Whether `id` is subscribed.
    pub open spec fn has(&self, id: SubscriptionId) -> bool {
        self.subscriptions().dom().contains(id)
    }

    /// No subscriptions; the first id is 1.
    pub fn new() -> (r: Self)
        ensures
            r.wf(),
            r.subscriptions() == Map::<SubscriptionId, Arc<O>>::empty(),
            r.next_id() == 1,
    {
        Registry { observers: HashMap::new(), next_id: 1 }
    }

    /// Subscribes `observer` under the next id and returns that id.
    pub fn subscribe(&mut self, observer: Arc<O>) -> (id: SubscriptionId)
        requires
            old(self).wf(),
            old(self).next_id() < i64::MAX,
        ensures
            final(self).wf(),
            id == old(self).next_id(),
            final(self).next_id() == id + 1,
            final(self).subscriptions() == old(self).subscriptions().insert(id, observer),
    {
        broadcast use vstd::std_specs::hash::group_hash_axioms;

        let id = self.next_id;
        self.next_id = self.next_id + 1;
        self.observers.insert(id, observer);
        assert forall|k: SubscriptionId| #[trigger] self.subscriptions().dom().contains(k) implies 1
            <= k < self.next_id() by {
            if k != id {
                assert(old(self).subscriptions().dom().contains(k));
            }
        }
        id
    }

    /// Removes the subscription `id`; `true` when it existed.
    pub fn unsubscribe(&mut self, id: SubscriptionId) -> (removed: bool)
        requires
            old(self).wf(),
        ensures
            final(self).wf(),
            removed == old(self).has(id),
            final(self).next_id() == old(self).next_id(),
            final(self).subscriptions() == old(self).subscriptions().remove(id),
    {
        broadcast use vstd::std_specs::hash::group_hash_axioms;

        let removed = self.observers.remove(&id);
        assert forall|k: SubscriptionId| #[trigger] self.subscriptions().dom().contains(k) implies 1
            <= k < self.next_id() by {
            assert(old(self).subscriptions().dom().contains(k));
        }
        removed.is_some()
    }

    /// The subscribed observers, each once, in the order the map walks them
    /// (which the map does not fix).
    pub fn snapshot(&self) -> (res: Vec<Arc<O>>)
        ensures
            res@.to_set() == self.subscriptions().values(),
            res@.len() == self.subscriptions().dom().len(),
    {
        broadcast use vstd::std_specs::hash::group_hash_axioms;
        broadcast use vstd::std_specs::hash::axiom_spec_values_iter;

        let mut out: Vec<Arc<O>> = Vec::new();
        for o in it: self.observers.values()
            invariant
                out@.len() == it.index(),
                forall|i: int| 0 <= i < it.index() ==> out@[i] == *it.seq()[i],
        {
            out.push(Arc::clone(o));
        }
        assert(out@ =~= spec_values_iter(&self.observers).remaining().unref());
        out
    }

    /// The number of subscriptions.
    pub fn len(&self) -> (n: usize)
        ensures
            n == self.subscriptions().dom().len(),
    {
        broadcast use vstd::std_specs::hash::group_hash_axioms;

        self.observers.len()
    }
}

/// The id the next subscription gets is not the id of any current
/// subscription; ids already handed out stay below it.
pub proof fn law_next_id_is_fresh<O: ?Sized>(r: Registry<O>)
    requires
        r.wf(),
    ensures
        !r.has(r.next_id()),
        forall|id: SubscriptionId| #[trigger] r.has(id) ==> id < r.next_id(),
{
}

/// Unsubscribing the id that a subscription was given takes exactly that
/// subscription out again: the subscriptions are those from before it.
pub proof fn law_unsubscribe_undoes_subscribe<O: ?Sized>(r: Registry<O>, observer: Arc<O>)
    requires
        r.wf(),
    ensures
        r.subscriptions().insert(r.next_id(), observer).remove(r.next_id()) == r.subscriptions(),
{
    assert(r.subscriptions().insert(r.next_id(), observer).remove(r.next_id()) =~= r.subscriptions());
}

/// Unsubscribing twice is harmless: once `id` is gone (as `unsubscribe`
/// leaves it), unsubscribing it again answers `false` and leaves the
/// subscriptions as they are.
pub proof fn law_unsubscribe_is_idempotent<O: ?Sized>(r: Registry<O>, id: SubscriptionId)
    requires
        r.wf(),
        !r.has(id),
    ensures
        r.subscriptions().remove(id) == r.subscriptions(),
{
    assert(r.subscriptions().remove(id) =~= r.subscriptions());
}

// ---------------------------------------------------------------------------
// The shared observer set.
// ---------------------------------------------------------------------------

/// What the lock of an observer set keeps true of its registry.
pub struct RegistryInvariant;

impl<O: ?Sized> RwLockPredicate<Registry<O>> for RegistryInvariant {
    open spec fn inv(self, v: Registry<O>) -> bool {
        v.wf()
    }
}

/// Thread-safe observer collection for state and diff notifications.
///
/// Clones share one registry. `notify` snapshots the observers before it
/// invokes callbacks, so callbacks can subscribe or unsubscribe without
/// waiting on the set's lock.
pub struct ObserverSet<O: ?Sized> {
    inner: Arc<RwLock<Registry<O>, RegistryInvariant>>,
}

impl<O: ?Sized> ObserverSet<O> {
    /// The lock keeps its registry well formed.
    #[verifier::type_invariant]
    spec fn locked_wf(&self) -> bool {
        self.inner.pred() == RegistryInvariant
    }

    /// `self` and `other` are handles on one set.
    pub closed spec fn same_set(&self, other: &Self) -> bool {
        self.inner == other.inner
    }

    /// Creates an empty observer set; subscription ids start at 1.
    pub fn new() -> (s: Self) {
        let registry = Registry::new();
        ObserverSet { inner: Arc::new(RwLock::new(registry, Ghost(RegistryInvariant))) }
    }

    /// Registers an observer and returns the id that removes it later. Ids
    /// are handed out in increasing order from 1; once `i64::MAX - 1` ids
    /// have been handed out the set takes no more observers and answers
    /// `i64::MAX`.
    pub fn subscribe(&self, observer: Arc<O>) -> (id: SubscriptionId)
        ensures
            1 <= id,
    {
        proof {
            use_type_invariant(self);
        }
        let (mut registry, handle) = self.inner.acquire_write();
        if registry.next_id == i64::MAX {
            handle.release_write(registry);
            return i64::MAX;
        }
        let id = registry.subscribe(observer);
        handle.release_write(registry);
        id
    }

    /// Removes a previously registered observer; `true` when the id was
    /// subscribed. A second call with the same id returns `false`.
    pub fn unsubscribe(&self, id: SubscriptionId) -> (removed: bool)
        ensures
            removed ==> 1 <= id,
    {
        proof {
            use_type_invariant(self);
        }
        let (mut registry, handle) = self.inner.acquire_write();
        let ghost before = registry;
        let removed = registry.unsubscribe(id);
        proof {
            if removed {
                assert(before.subscriptions().dom().contains(id));
            }
        }
        handle.release_write(registry);
        removed
    }

    /// The currently subscribed observers as a detached snapshot: later
    /// changes of the set do not affect it.
    pub fn snapshot(&self) -> (res: Vec<Arc<O>>)
    {
        proof {
            use_type_invariant(self);
        }
        let handle = self.inner.acquire_read();
        let observers = handle.borrow().snapshot();
        handle.release_read();
        observers
    }

    /// Invokes `f` for every observer of a snapshot taken now, without
    /// holding the set's lock.
    pub fn notify<F: FnMut(&Arc<O>)>(&self, f: F)
        requires
            forall|o: &Arc<O>| f.requires((o,)),
    {
        let observers = self.snapshot();
        Self::notify_snapshot(&observers, f);
    }

    /// Invokes `f` for every observer of `observers`, in order.
    pub fn notify_snapshot<F: FnMut(&Arc<O>)>(observers: &[Arc<O>], mut f: F)
        requires
            forall|o: &Arc<O>| f.requires((o,)),
    {
        let mut i: usize = 0;
        while i < observers.len()
            invariant
                i <= observers@.len(),
                forall|o: &Arc<O>| f.requires((o,)),
            decreases observers@.len() - i,
        {
            f(&observers[i]);
            i = i + 1;
        }
    }

    /// Whether no observer is subscribed at the moment of the call.
    pub fn is_empty(&self) -> (r: bool)
    {
        self.len() == 0
    }

    /// The number of observers subscribed at the moment of the call.
    pub fn len(&self) -> (n: usize)
    {
        proof {
            use_type_invariant(self);
        }
        let handle = self.inner.acquire_read();
        let n = handle.borrow().len();
        handle.release_read();
        n
    }
}

impl<O: ?Sized> Clone for ObserverSet<O> {
    /// Another handle on the same set.
    fn clone(&self) -> (s: Self)
        ensures
            s.same_set(self),
    {
        proof {
            use_type_invariant(self);
        }
        ObserverSet { inner: Arc::clone(&self.inner) }
    }
}

impl<O: ?Sized> Default for ObserverSet<O> {
    fn default() -> (s: Self) {
        Self::new()
    }
}

// ---------------------------------------------------------------------------
// Metadata.
// ---------------------------------------------------------------------------

/// Metadata emitted by Cross-Kit VM bridge macros: the target-independent VM
/// metadata JSON of the implementing VM type.
pub trait CkVmMetadata {
    fn ck_vm_metadata() -> &'static str;
}

/// The texts of `metadata`, in order.
pub open spec fn str_views(metadata: Seq<&str>) -> Seq<Seq<char>> {
    Seq::new(metadata.len(), |i: int| metadata[i]@)
}

/// The JSON array of the metadata objects: `[`, the objects joined by `,`,
/// and `]`, with nothing escaped.
pub open spec fn metadata_array(metadata: Seq<&str>) -> Seq<char> {
    "["@ + join(str_views(metadata), ","@) + "]"@
}

/// Builds the metadata JSON array that SDK metadata binaries print. Each
/// entry must already be a JSON object; the entries are joined unchanged.
pub fn metadata_json(metadata: &[&str]) -> (res: String)
    ensures
        res@ == metadata_array(metadata@),
{
    let ghost vs = str_views(metadata@);
    let mut body = String::new();
    let mut i: usize = 0;
    while i < metadata.len()
        invariant
            i <= metadata@.len(),
            vs == str_views(metadata@),
            body@ == join(vs.take(i as int), ","@),
        decreases metadata@.len() - i,
    {
        assert(vs.take(i + 1).drop_last() =~= vs.take(i as int));
        if i != 0 {
            body.append(",");
        } else {
            assert(body@ =~= Seq::<char>::empty());
        }
        body.append(metadata[i]);
        i = i + 1;
    }
    assert(vs.take(metadata@.len() as int) =~= vs);
    let mut out = String::from_str("[");
    out.append(body.as_str());
    out.append("]");
    out
}

} // verus!
