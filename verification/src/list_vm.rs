//! The example diff-list view model: a list of timestamped items whose every
//! change is delivered to the subscribed observers as a batch of diffs.
use vstd::prelude::*;
use std::sync::Arc;
use crate::calendar::{date_cn, date_cn_from_timestamp_ms, now_timestamp_ms};
use crate::delivery::{deliver_diffs, Receipt};
use vstd::seq_lib::group_to_multiset_ensures;

verus! {

// ---------------------------------------------------------------------------
// Items, diffs and observers.
// ---------------------------------------------------------------------------

/// One item of the list.
#[derive(Clone, Debug, PartialEq, Eq)]
pub struct ListItem {
    pub id: i64,
    pub timestamp_ms: i64,
    pub date_cn: String,
}

/// One change of the list, by index.
#[derive(Clone, Debug, PartialEq, Eq)]
pub enum ListDiff {
    Insert { index: i64, item: ListItem },
    Update { index: i64, item: ListItem },
    Remove { index: i64, id: i64 },
    Move { from: i64, to: i64 },
}

/// Receives the diffs of a list view model.
pub trait ListObserver: Send + Sync {
    fn on_diffs(&self, diffs: Vec<ListDiff>);
}

/// A deliveries log entry: the index of the observer and the diffs it received.
pub type Delivery = (nat, Seq<ListDiff>);

/// `diffs` delivered to each of the first `n` observers, in subscription order.
pub open spec fn broadcast(n: nat, diffs: Seq<ListDiff>) -> Seq<Delivery> {
    Seq::new(n, |i: int| (i as nat, diffs))
}

/// The index of a list of length `len` that `index` names, if any.
pub open spec fn checked_index(index: i64, len: nat) -> Option<int> {
    if index < 0 || index as usize >= len {
        None
    } else {
        Some(index as usize as int)
    }
}

/// The insertion position in a list of length `len` that `index` names, if any.
pub open spec fn checked_insert_index(index: i64, len: nat) -> Option<int> {
    if index < 0 || index as usize > len {
        None
    } else {
        Some(index as usize as int)
    }
}

/// `s` with the item at `f` taken out and put back in front of the item that
/// was at `t`.
pub open spec fn moved(s: Seq<ListItem>, f: int, t: int) -> Seq<ListItem> {
    if f == t {
        s
    } else {
        s.remove(f).insert(
            if f < t {
                t - 1
            } else {
                t
            },
            s[f],
        )
    }
}

/// `s` after one diff, or `None` when the diff names an index `s` lacks.
pub open spec fn apply_diff(s: Seq<ListItem>, d: ListDiff) -> Option<Seq<ListItem>> {
    match d {
        ListDiff::Insert { index, item } => match checked_insert_index(index, s.len()) {
            Some(i) => Some(s.insert(i, item)),
            None => None,
        },
        ListDiff::Update { index, item } => match checked_index(index, s.len()) {
            Some(i) => Some(s.update(i, item)),
            None => None,
        },
        ListDiff::Remove { index, id } => match checked_index(index, s.len()) {
            Some(i) => Some(s.remove(i)),
            None => None,
        },
        ListDiff::Move { from, to } => match (checked_index(from, s.len()), checked_index(to, s.len())) {
            (Some(f), Some(t)) => Some(moved(s, f, t)),
            _ => None,
        },
    }
}

/// `s` after the diffs of `ds` in order up to the first one that fails, and
/// whether none failed.
pub open spec fn apply_run(s: Seq<ListItem>, ds: Seq<ListDiff>) -> (Seq<ListItem>, bool)
    decreases ds.len(),
{
    if ds.len() == 0 {
        (s, true)
    } else {
        let (p, ok) = apply_run(s, ds.drop_last());
        if !ok {
            (p, false)
        } else {
            match apply_diff(p, ds.last()) {
                Some(q) => (q, true),
                None => (p, false),
            }
        }
    }
}

/// The diffs that bring a new observer up to date: one insert per item.
pub open spec fn initial_diffs(s: Seq<ListItem>) -> Seq<ListDiff> {
    Seq::new(s.len(), |i: int| ListDiff::Insert { index: i as usize as i64, item: s[i] })
}

/// `item` is the item with id `id` made at `timestamp_ms`.
pub open spec fn made_item(item: ListItem, id: i64, timestamp_ms: i64) -> bool {
    item.id == id && item.timestamp_ms == timestamp_ms && item.date_cn@ == date_cn(timestamp_ms)
}

/// The first position at or after `k` in `d` whose item is older than `ts`
/// (the length of `d` when there is none).
pub open spec fn desc_slot(d: Seq<ListItem>, ts: i64, k: int) -> int
    decreases d.len() - k,
{
    if k < 0 || k >= d.len() {
        d.len() as int
    } else if d[k].timestamp_ms < ts {
        k
    } else {
        desc_slot(d, ts, k + 1)
    }
}

/// `s` sorted by descending timestamp, items with equal timestamps keeping
/// their order (a stable sort).
pub open spec fn sorted_desc(s: Seq<ListItem>) -> Seq<ListItem>
    decreases s.len(),
{
    if s.len() == 0 {
        s
    } else {
        let d = sorted_desc(s.drop_last());
        d.insert(desc_slot(d, s.last().timestamp_ms, 0), s.last())
    }
}

/// `a` and `b` hold equal items, position by position (as `==` on the items
/// compares them: ids, timestamps and date texts).
pub open spec fn same_items(a: Seq<ListItem>, b: Seq<ListItem>) -> bool {
    &&& a.len() == b.len()
    &&& forall|i: int|
        0 <= i < a.len() ==> (#[trigger] a[i]).id == b[i].id && a[i].timestamp_ms
            == b[i].timestamp_ms && a[i].date_cn@ == b[i].date_cn@
}

/// The first position at or after `j` of an item with id `id`.
pub open spec fn find_id_from(s: Seq<ListItem>, id: i64, j: int) -> Option<int>
    decreases s.len() - j,
{
    if j < 0 || j >= s.len() {
        None
    } else if s[j].id == id {
        Some(j)
    } else {
        find_id_from(s, id, j + 1)
    }
}

/// Reordering `s` toward `desired` one target position at a time, for the
/// targets below `t`: at each target the first item with the desired id is
/// moved there, and each such move is recorded. Returns the items and the moves.
pub open spec fn reorder(s: Seq<ListItem>, desired: Seq<ListItem>, t: nat) -> (
    Seq<ListItem>,
    Seq<ListDiff>,
)
    decreases t,
{
    if t == 0 {
        (s, Seq::empty())
    } else {
        let (cur, moves) = reorder(s, desired, (t - 1) as nat);
        let target = t - 1;
        match find_id_from(cur, desired[target].id, 0) {
            None => (cur, moves),
            Some(p) => if p == target {
                (cur, moves)
            } else {
                (
                    cur.remove(p).insert(target, cur[p]),
                    moves.push(ListDiff::Move { from: p as i64, to: target as i64 }),
                )
            },
        }
    }
}

/// The items and moves of sorting `s` by descending timestamp.
pub open spec fn sort_outcome(s: Seq<ListItem>) -> (Seq<ListItem>, Seq<ListDiff>) {
    reorder(s, sorted_desc(s), s.len())
}

proof fn lemma_sorted_desc_len(s: Seq<ListItem>)
    ensures
        sorted_desc(s).len() == s.len(),
    decreases s.len(),
{
    if s.len() > 0 {
        lemma_sorted_desc_len(s.drop_last());
        let d = sorted_desc(s.drop_last());
        lemma_desc_slot_bounds(d, s.last().timestamp_ms, 0);
    }
}

fn copy_item(item: &ListItem) -> (res: ListItem)
    ensures
        res == *item,
{
    ListItem { id: item.id, timestamp_ms: item.timestamp_ms, date_cn: item.date_cn.clone() }
}

fn copy_diff(diff: &ListDiff) -> (res: ListDiff)
    ensures
        res == *diff,
{
    match diff {
        ListDiff::Insert { index, item } => ListDiff::Insert { index: *index, item: copy_item(item) },
        ListDiff::Update { index, item } => ListDiff::Update { index: *index, item: copy_item(item) },
        ListDiff::Remove { index, id } => ListDiff::Remove { index: *index, id: *id },
        ListDiff::Move { from, to } => ListDiff::Move { from: *from, to: *to },
    }
}

fn copy_diffs(diffs: &Vec<ListDiff>) -> (res: Vec<ListDiff>)
    ensures
        res@ == diffs@,
{
    let mut out: Vec<ListDiff> = Vec::new();
    let mut i: usize = 0;
    while i < diffs.len()
        invariant
            i <= diffs.len(),
            out@ == diffs@.take(i as int),
        decreases diffs.len() - i,
    {
        out.push(copy_diff(&diffs[i]));
        i = i + 1;
        assert(out@ =~= diffs@.take(i as int));
    }
    assert(diffs@.take(diffs.len() as int) =~= diffs@);
    out
}

fn desc_slot_of(d: &Vec<ListItem>, ts: i64) -> (k: usize)
    ensures
        k == desc_slot(d@, ts, 0),
{
    let mut k: usize = 0;
    while k < d.len() && d[k].timestamp_ms >= ts
        invariant
            k <= d@.len(),
            desc_slot(d@, ts, 0) == desc_slot(d@, ts, k as int),
        decreases d@.len() - k,
    {
        k = k + 1;
    }
    k
}

fn sorted_desc_copy(items: &Vec<ListItem>) -> (res: Vec<ListItem>)
    ensures
        res@ == sorted_desc(items@),
{
    let mut out: Vec<ListItem> = Vec::new();
    let mut i: usize = 0;
    while i < items.len()
        invariant
            i <= items@.len(),
            out@ == sorted_desc(items@.take(i as int)),
        decreases items@.len() - i,
    {
        let ts = items[i].timestamp_ms;
        let k = desc_slot_of(&out, ts);
        proof {
            assert(items@.take(i + 1).drop_last() =~= items@.take(i as int));
            assert(items@.take(i + 1).last() == items@[i as int]);
            lemma_desc_slot_bounds(out@, ts, 0);
        }
        out.insert(k, copy_item(&items[i]));
        i = i + 1;
    }
    assert(items@.take(items@.len() as int) =~= items@);
    out
}

proof fn lemma_desc_slot_bounds(d: Seq<ListItem>, ts: i64, k: int)
    requires
        0 <= k <= d.len(),
    ensures
        k <= desc_slot(d, ts, k) <= d.len(),
    decreases d.len() - k,
{
    if k < d.len() {
        lemma_desc_slot_bounds(d, ts, k + 1);
    }
}

fn same_item_lists(a: &Vec<ListItem>, b: &Vec<ListItem>) -> (r: bool)
    ensures
        r == same_items(a@, b@),
{
    if a.len() != b.len() {
        return false;
    }
    let mut i: usize = 0;
    while i < a.len()
        invariant
            i <= a@.len(),
            a@.len() == b@.len(),
            forall|j: int|
                0 <= j < i ==> (#[trigger] a@[j]).id == b@[j].id && a@[j].timestamp_ms
                    == b@[j].timestamp_ms && a@[j].date_cn@ == b@[j].date_cn@,
        decreases a@.len() - i,
    {
        if a[i].id != b[i].id || a[i].timestamp_ms != b[i].timestamp_ms || a[i].date_cn
            != b[i].date_cn {
            return false;
        }
        i = i + 1;
    }
    true
}

fn position_of_id(items: &Vec<ListItem>, id: i64) -> (res: Option<usize>)
    ensures
        match res {
            None => find_id_from(items@, id, 0) is None,
            Some(p) => find_id_from(items@, id, 0) == Some(p as int),
        },
{
    let mut j: usize = 0;
    while j < items.len()
        invariant
            j <= items@.len(),
            find_id_from(items@, id, 0) == find_id_from(items@, id, j as int),
        decreases items@.len() - j,
    {
        if items[j].id == id {
            return Some(j);
        }
        j = j + 1;
    }
    None
}

proof fn lemma_find_id_bounds(s: Seq<ListItem>, id: i64, j: int)
    requires
        0 <= j,
    ensures
        find_id_from(s, id, j) matches Some(p) ==> j <= p < s.len() && s[p].id == id,
    decreases s.len() - j,
{
    if j < s.len() {
        lemma_find_id_bounds(s, id, j + 1);
    }
}

proof fn lemma_reorder_len(s: Seq<ListItem>, desired: Seq<ListItem>, t: nat)
    requires
        t <= desired.len(),
        desired.len() == s.len(),
    ensures
        reorder(s, desired, t).0.len() == s.len(),
    decreases t,
{
    if t > 0 {
        lemma_reorder_len(s, desired, (t - 1) as nat);
        let cur = reorder(s, desired, (t - 1) as nat).0;
        lemma_find_id_bounds(cur, desired[t - 1].id, 0);
    }
}

/// The index that `index` names in a list of length `len`, if any.
pub fn to_index(index: i64, len: usize) -> (res: Option<usize>)
    ensures
        match res {
            None => checked_index(index, len as nat) is None,
            Some(i) => checked_index(index, len as nat) == Some(i as int),
        },
{
    if index < 0 {
        return None;
    }
    let idx = index as usize;
    if idx >= len {
        None
    } else {
        Some(idx)
    }
}

/// The insertion position that `index` names in a list of length `len`, if any.
pub fn to_insert_index(index: i64, len: usize) -> (res: Option<usize>)
    ensures
        match res {
            None => checked_insert_index(index, len as nat) is None,
            Some(i) => checked_insert_index(index, len as nat) == Some(i as int),
        },
{
    if index < 0 {
        return None;
    }
    let idx = index as usize;
    if idx > len {
        None
    } else {
        Some(idx)
    }
}

proof fn lemma_run_stops(s: Seq<ListItem>, ds: Seq<ListDiff>, k: int)
    requires
        0 <= k <= ds.len(),
        !apply_run(s, ds.take(k)).1,
    ensures
        apply_run(s, ds) == apply_run(s, ds.take(k)),
    decreases ds.len(),
{
    if k == ds.len() {
        assert(ds.take(k) =~= ds);
    } else {
        assert(ds.drop_last().take(k) =~= ds.take(k));
        lemma_run_stops(s, ds.drop_last(), k);
    }
}

// ---------------------------------------------------------------------------
// The view model.
// ---------------------------------------------------------------------------

/// The diff-list view model of the example app; `O` is the observer type,
/// a trait object unless a caller fixes it.
pub struct ListViewModel<O: ?Sized + ListObserver = dyn ListObserver> {
    items: Vec<ListItem>,
    observers: Vec<Arc<O>>,
    next_id: i64,
    receipts: Vec<Receipt<O, Seq<ListDiff>>>,
}

impl ListViewModel {
    /// An empty list whose first item gets id 1.
    pub fn new() -> (vm: Self)
        ensures
            vm.items() == Seq::<ListItem>::empty(),
            vm.next_item_id() == 1,
            vm.observer_count() == 0,
            vm.delivered() == Seq::<Delivery>::empty(),
            vm.genuine(),
            vm.wf(),
            vm.in_sync(),
    {
        let vm = ListViewModel {
            items: Vec::new(),
            observers: Vec::new(),
            next_id: 1,
            receipts: Vec::new(),
        };
        assert(vm.delivered() =~= Seq::<Delivery>::empty());
        vm
    }
}

impl<O: ?Sized + ListObserver> ListViewModel<O> {
    /// The items, in list order.
    pub closed spec fn items(&self) -> Seq<ListItem> {
        self.items@
    }

    /// The id the next created item gets.
    pub closed spec fn next_item_id(&self) -> i64 {
        self.next_id
    }

    /// How many observers are subscribed.
    pub closed spec fn observer_count(&self) -> nat {
        self.observers@.len()
    }

    /// Every batch of diffs handed to an observer so far, in order: the
    /// receipts of the `on_diffs` calls made, each with its subscription
    /// index.
    pub closed spec fn delivered(&self) -> Seq<Delivery> {
        self.receipts@.map_values(|r: Receipt<O, Seq<ListDiff>>| (r.index(), r.message()))
    }

    /// The observer whose callback the `i`-th delivery called.
    pub closed spec fn recipient(&self, i: int) -> Arc<O> {
        self.receipts@[i].to()
    }

    /// The observer subscribed at index `k`.
    pub closed spec fn observer(&self, k: nat) -> Arc<O> {
        self.observers@[k as int]
    }

    /// Every delivery on record called the callback of the observer
    /// subscribed at its index.
    pub open spec fn genuine(&self) -> bool {
        forall|i: int|
            #![trigger self.delivered()[i]]
            0 <= i < self.delivered().len() ==> self.delivered()[i].0 < self.observer_count()
                && self.recipient(i) == self.observer(self.delivered()[i].0)
    }

    /// No two items share an id, and every id is below the next item id.
    pub open spec fn wf(&self) -> bool {
        distinct_ids(self.items()) && ids_below(self.items(), self.next_item_id())
    }

    /// Every batch delivered so far went to a subscribed observer, and a
    /// replica that starts empty and applies the batches one observer
    /// received, in order, accepts each of them and holds the items.
    pub open spec fn in_sync(&self) -> bool {
        synced(self.delivered(), self.observer_count(), self.items())
    }

    /// `insert_with_timestamp(index, timestamp_ms)` on `before` leaves
    /// `after` and returns `res`: `None` and no change when `index` is not a
    /// position of the list; otherwise the new item made at `timestamp_ms`
    /// with the next id, inserted at `index` and sent to every observer.
    pub open spec fn insert_outcome(
        before: Self,
        after: Self,
        index: i64,
        timestamp_ms: i64,
        res: Option<ListItem>,
    ) -> bool {
        match checked_insert_index(index, before.items().len()) {
            None => res is None && after == before,
            Some(i) => res matches Some(item) && made_item(item, before.next_item_id(), timestamp_ms)
                && after.items() == before.items().insert(i, item) && after.next_item_id()
                == before.next_item_id() + 1 && after.observer_count() == before.observer_count()
                && after.delivered() == before.delivered() + broadcast(
                before.observer_count(),
                seq![ListDiff::Insert { index, item }],
            ),
        }
    }

    proof fn lemma_same_log(a: &Self, b: &Self)
        requires
            a.receipts@ == b.receipts@,
            a.observers@ == b.observers@,
            a.genuine(),
        ensures
            b.genuine(),
            b.delivered() == a.delivered(),
    {
        assert(b.delivered() =~= a.delivered());
        assert forall|j: int| 0 <= j < b.delivered().len() implies #[trigger] b.delivered()[j].0
            < b.observer_count() && b.recipient(j) == b.observer(b.delivered()[j].0) by {
            assert(a.delivered()[j] == b.delivered()[j]);
        }
    }

    /// The same items, observers and next id.
    pub open spec fn same_state(&self, other: &Self) -> bool {
        &&& self.items() == other.items()
        &&& self.next_item_id() == other.next_item_id()
        &&& self.observer_count() == other.observer_count()
    }

    /// Hands `diffs` to every observer.
    fn emit_diffs(&mut self, diffs: &Vec<ListDiff>)
        ensures
            final(self).same_state(&*old(self)),
            final(self).delivered() == old(self).delivered() + broadcast(
                old(self).observer_count(),
                diffs@,
            ),
            old(self).genuine() ==> final(self).genuine(),
    {
        let ghost start = self.delivered();
        let mut i: usize = 0;
        while i < self.observers.len()
            invariant
                i <= self.observers@.len(),
                self.items@ == old(self).items@,
                self.next_id == old(self).next_id,
                self.observers@ == old(self).observers@,
                start == old(self).delivered(),
                self.delivered() == start + broadcast(i as nat, diffs@),
                old(self).genuine() ==> self.genuine(),
            decreases self.observers@.len() - i,
        {
            let receipt = deliver_diffs(&self.observers[i], copy_diffs(diffs), Ghost(i as nat));
            let ghost before = *self;
            self.receipts.push(receipt);
            proof {
                assert(self.delivered() =~= before.delivered().push((i as nat, diffs@)));
                assert(start + broadcast((i + 1) as nat, diffs@) =~= (start + broadcast(
                    i as nat,
                    diffs@,
                )).push((i as nat, diffs@)));
                if old(self).genuine() {
                    assert forall|j: int| 0 <= j < self.delivered().len() implies #[trigger] self.delivered()[j].0
                        < self.observer_count() && self.recipient(j) == self.observer(
                        self.delivered()[j].0,
                    ) by {
                        if j < before.receipts@.len() {
                            assert(self.receipts@[j] == before.receipts@[j]);
                            assert(before.recipient(j) == before.observer(before.delivered()[j].0));
                        }
                    }
                }
            }
            i = i + 1;
        }
    }

    /// Adds an observer and brings it up to date with one insert per item
    /// (nothing is sent for an empty list).
    pub fn subscribe(&mut self, observer: Arc<O>)
        ensures
            final(self).items() == old(self).items(),
            final(self).next_item_id() == old(self).next_item_id(),
            final(self).observer_count() == old(self).observer_count() + 1,
            final(self).delivered() == if old(self).items().len() == 0 {
                old(self).delivered()
            } else {
                old(self).delivered().push(
                    (old(self).observer_count(), initial_diffs(old(self).items())),
                )
            },
            old(self).wf() ==> final(self).wf(),
            old(self).genuine() ==> final(self).genuine(),
            old(self).in_sync() && old(self).items().len() <= i64::MAX ==> final(self).in_sync(),
    {
        let index = self.observers.len();
        let mut initial: Vec<ListDiff> = Vec::new();
        let mut i: usize = 0;
        while i < self.items.len()
            invariant
                i <= self.items@.len(),
                initial@ == initial_diffs(self.items@).take(i as int),
            decreases self.items@.len() - i,
        {
            initial.push(ListDiff::Insert { index: i as i64, item: copy_item(&self.items[i]) });
            i = i + 1;
            assert(initial@ =~= initial_diffs(self.items@).take(i as int));
        }
        assert(initial_diffs(self.items@).take(self.items@.len() as int) =~= initial_diffs(
            self.items@,
        ));
        self.observers.push(observer);
        if initial.len() > 0 {
            let receipt = deliver_diffs(&self.observers[index], initial, Ghost(index as nat));
            let ghost before = *self;
            self.receipts.push(receipt);
            proof {
                assert(self.delivered() =~= before.delivered().push(
                    (index as nat, initial_diffs(self.items@)),
                ));
                if old(self).genuine() {
                    assert forall|j: int| 0 <= j < self.delivered().len() implies #[trigger] self.delivered()[j].0
                        < self.observer_count() && self.recipient(j) == self.observer(
                        self.delivered()[j].0,
                    ) by {
                        if j < before.receipts@.len() {
                            assert(self.receipts@[j] == before.receipts@[j]);
                            assert(old(self).recipient(j) == old(self).observer(
                                old(self).delivered()[j].0,
                            ));
                            assert(self.observers@[old(self).delivered()[j].0 as int]
                                == old(self).observers@[old(self).delivered()[j].0 as int]);
                        }
                    }
                }
            }
        } else {
            proof {
                if old(self).genuine() {
                    assert forall|j: int| 0 <= j < self.delivered().len() implies #[trigger] self.delivered()[j].0
                        < self.observer_count() && self.recipient(j) == self.observer(
                        self.delivered()[j].0,
                    ) by {
                        assert(old(self).recipient(j) == old(self).observer(
                            old(self).delivered()[j].0,
                        ));
                        assert(self.observers@[old(self).delivered()[j].0 as int]
                            == old(self).observers@[old(self).delivered()[j].0 as int]);
                    }
                }
            }
        }
        proof {
            if old(self).in_sync() && old(self).items().len() <= i64::MAX {
                lemma_subscribe_syncs(old(self).delivered(), old(self).observer_count(), self.items@);
            }
        }
    }

    /// The number of items.
    pub fn len(&self) -> (n: i64)
        ensures
            n == self.items().len() as i64,
    {
        self.items.len() as i64
    }

    fn insert_with_timestamp_internal(&mut self, index: i64, timestamp_ms: i64) -> (res: Option<
        ListItem,
    >)
        requires
            checked_insert_index(index, old(self).items().len()) is Some ==> old(
                self,
            ).next_item_id() < i64::MAX,
        ensures
            match checked_insert_index(index, old(self).items().len()) {
                None => res is None && *final(self) == *old(self),
                Some(i) => res matches Some(item) && made_item(
                    item,
                    old(self).next_item_id(),
                    timestamp_ms,
                ) && final(self).items() == old(self).items().insert(i, item)
                    && final(self).next_item_id() == old(self).next_item_id() + 1
                    && final(self).observer_count() == old(self).observer_count()
                    && final(self).delivered() == old(self).delivered() + broadcast(
                    old(self).observer_count(),
                    seq![ListDiff::Insert { index, item }],
                ),
            },
            old(self).wf() ==> final(self).wf(),
            old(self).genuine() ==> final(self).genuine(),
            old(self).in_sync() ==> final(self).in_sync(),
    {
        let idx = match to_insert_index(index, self.items.len()) {
            Some(i) => i,
            None => {
                return None;
            },
        };
        let id = self.next_id;
        self.next_id = self.next_id + 1;
        let item = ListItem {
            id,
            timestamp_ms,
            date_cn: date_cn_from_timestamp_ms(timestamp_ms),
        };
        self.items.insert(idx, copy_item(&item));
        let mut diffs: Vec<ListDiff> = Vec::new();
        diffs.push(ListDiff::Insert { index, item: copy_item(&item) });
        self.emit_diffs(&diffs);
        proof {
            let s0 = old(self).items();
            law_insert_replays(s0, index, item);
            if old(self).in_sync() {
                lemma_broadcast_syncs(
                    old(self).delivered(),
                    old(self).observer_count(),
                    s0,
                    diffs@,
                    self.items@,
                );
            }
            if old(self).wf() {
                lemma_insert_keeps_ids(s0, idx as int, item, old(self).next_id, self.next_id);
            }
        }
        Some(item)
    }

    /// Inserts a new item made at `timestamp_ms` at `index`; `None`, and no
    /// change, when `index` is not a position of the list.
    pub fn insert_with_timestamp(&mut self, index: i64, timestamp_ms: i64) -> (res: Option<
        ListItem,
    >)
        requires
            checked_insert_index(index, old(self).items().len()) is Some ==> old(
                self,
            ).next_item_id() < i64::MAX,
        ensures
            Self::insert_outcome(*old(self), *final(self), index, timestamp_ms, res),
            old(self).wf() ==> final(self).wf(),
            old(self).genuine() ==> final(self).genuine(),
            old(self).in_sync() ==> final(self).in_sync(),
    {
        self.insert_with_timestamp_internal(index, timestamp_ms)
    }

    /// Inserts a new item made now at `index`; `None`, and no change, when
    /// `index` is not a position of the list.
    pub fn insert_now(&mut self, index: i64) -> (res: Option<ListItem>)
        requires
            checked_insert_index(index, old(self).items().len()) is Some ==> old(
                self,
            ).next_item_id() < i64::MAX,
        ensures
            exists|now: i64| #[trigger]
                Self::insert_outcome(*old(self), *final(self), index, now, res),
            match checked_insert_index(index, old(self).items().len()) {
                None => res is None && *final(self) == *old(self),
                Some(i) => res matches Some(item) && made_item(
                    item,
                    old(self).next_item_id(),
                    item.timestamp_ms,
                ) && final(self).items() == old(self).items().insert(i, item)
                    && final(self).next_item_id() == old(self).next_item_id() + 1
                    && final(self).observer_count() == old(self).observer_count()
                    && final(self).delivered() == old(self).delivered() + broadcast(
                    old(self).observer_count(),
                    seq![ListDiff::Insert { index, item }],
                ),
            },
            old(self).wf() ==> final(self).wf(),
            old(self).genuine() ==> final(self).genuine(),
            old(self).in_sync() ==> final(self).in_sync(),
    {
        let timestamp_ms = now_timestamp_ms();
        let res = self.insert_with_timestamp_internal(index, timestamp_ms);
        assert(Self::insert_outcome(*old(self), *self, index, timestamp_ms, res));
        res
    }

    /// Appends a new item made now.
    pub fn append_now(&mut self) -> (item: ListItem)
        requires
            old(self).items().len() < i64::MAX,
            old(self).next_item_id() < i64::MAX,
        ensures
            made_item(item, old(self).next_item_id(), item.timestamp_ms),
            final(self).items() == old(self).items().push(item),
            final(self).next_item_id() == old(self).next_item_id() + 1,
            final(self).observer_count() == old(self).observer_count(),
            final(self).delivered() == old(self).delivered() + broadcast(
                old(self).observer_count(),
                seq![ListDiff::Insert { index: old(self).items().len() as i64, item }],
            ),
            old(self).wf() ==> final(self).wf(),
            old(self).genuine() ==> final(self).genuine(),
            old(self).in_sync() ==> final(self).in_sync(),
    {
        let timestamp_ms = now_timestamp_ms();
        let n = self.items.len();
        let index = n as i64;
        assert(checked_insert_index(index, old(self).items().len()) == Some(n as int));
        let res = self.insert_with_timestamp_internal(index, timestamp_ms);
        match res {
            Some(item) => {
                assert(old(self).items().insert(old(self).items().len() as int, item)
                    =~= old(self).items().push(item));
                item
            },
            None => {
                assert(false);
                ListItem { id: 0, timestamp_ms: 0, date_cn: String::new() }
            },
        }
    }

    /// Gives the item at `index` the timestamp `timestamp_ms`, keeping its id;
    /// `None`, and no change, when `index` is not an index of the list.
    pub fn update_with_timestamp(&mut self, index: i64, timestamp_ms: i64) -> (res: Option<
        ListItem,
    >)
        ensures
            match checked_index(index, old(self).items().len()) {
                None => res is None && *final(self) == *old(self),
                Some(i) => res matches Some(item) && made_item(
                    item,
                    old(self).items()[i].id,
                    timestamp_ms,
                ) && final(self).items() == old(self).items().update(i, item)
                    && final(self).next_item_id() == old(self).next_item_id()
                    && final(self).observer_count() == old(self).observer_count()
                    && final(self).delivered() == old(self).delivered() + broadcast(
                    old(self).observer_count(),
                    seq![ListDiff::Update { index, item }],
                ),
            },
            old(self).wf() ==> final(self).wf(),
            old(self).genuine() ==> final(self).genuine(),
            old(self).in_sync() ==> final(self).in_sync(),
    {
        let idx = match to_index(index, self.items.len()) {
            Some(i) => i,
            None => {
                return None;
            },
        };
        let updated = ListItem {
            id: self.items[idx].id,
            timestamp_ms,
            date_cn: date_cn_from_timestamp_ms(timestamp_ms),
        };
        self.items.set(idx, copy_item(&updated));
        let mut diffs: Vec<ListDiff> = Vec::new();
        diffs.push(ListDiff::Update { index, item: copy_item(&updated) });
        self.emit_diffs(&diffs);
        proof {
            let s0 = old(self).items();
            law_update_replays(s0, index, updated);
            if old(self).in_sync() {
                lemma_broadcast_syncs(
                    old(self).delivered(),
                    old(self).observer_count(),
                    s0,
                    diffs@,
                    self.items@,
                );
            }
            if old(self).wf() {
                lemma_update_keeps_ids(s0, idx as int, updated, self.next_id);
            }
        }
        Some(updated)
    }

    /// Removes and returns the item at `index`; `None`, and no change, when
    /// `index` is not an index of the list.
    pub fn remove_at(&mut self, index: i64) -> (res: Option<ListItem>)
        ensures
            match checked_index(index, old(self).items().len()) {
                None => res is None && *final(self) == *old(self),
                Some(i) => res == Some(old(self).items()[i]) && final(self).items() == old(
                    self,
                ).items().remove(i) && final(self).next_item_id() == old(self).next_item_id()
                    && final(self).observer_count() == old(self).observer_count()
                    && final(self).delivered() == old(self).delivered() + broadcast(
                    old(self).observer_count(),
                    seq![ListDiff::Remove { index, id: old(self).items()[i].id }],
                ),
            },
            old(self).wf() ==> final(self).wf(),
            old(self).genuine() ==> final(self).genuine(),
            old(self).in_sync() ==> final(self).in_sync(),
    {
        let idx = match to_index(index, self.items.len()) {
            Some(i) => i,
            None => {
                return None;
            },
        };
        let removed = self.items.remove(idx);
        let mut diffs: Vec<ListDiff> = Vec::new();
        diffs.push(ListDiff::Remove { index, id: removed.id });
        self.emit_diffs(&diffs);
        proof {
            let s0 = old(self).items();
            law_remove_replays(s0, index);
            if old(self).in_sync() {
                lemma_broadcast_syncs(
                    old(self).delivered(),
                    old(self).observer_count(),
                    s0,
                    diffs@,
                    self.items@,
                );
            }
            if old(self).wf() {
                lemma_remove_keeps_ids(s0, idx as int, self.next_id);
            }
        }
        Some(removed)
    }

    /// Moves the item at `from` in front of the item at `to`. `false`, and no
    /// change, unless both are indices of the list; moving an item onto
    /// itself changes and sends nothing.
    pub fn move_item(&mut self, from: i64, to: i64) -> (res: bool)
        ensures
            match (
                checked_index(from, old(self).items().len()),
                checked_index(to, old(self).items().len()),
            ) {
                (Some(f), Some(t)) => res && final(self).items() == moved(old(self).items(), f, t)
                    && final(self).next_item_id() == old(self).next_item_id()
                    && final(self).observer_count() == old(self).observer_count()
                    && final(self).delivered() == if f == t {
                    old(self).delivered()
                } else {
                    old(self).delivered() + broadcast(
                        old(self).observer_count(),
                        seq![ListDiff::Move { from, to }],
                    )
                },
                _ => !res && *final(self) == *old(self),
            },
            old(self).wf() ==> final(self).wf(),
            old(self).genuine() ==> final(self).genuine(),
            old(self).in_sync() ==> final(self).in_sync(),
    {
        let len = self.items.len();
        let from_idx = match to_index(from, len) {
            Some(value) => value,
            None => {
                return false;
            },
        };
        let to_idx = match to_index(to, len) {
            Some(value) => value,
            None => {
                return false;
            },
        };
        if from_idx == to_idx {
            return true;
        }
        self.move_within(from_idx, to_idx);
        let mut diffs: Vec<ListDiff> = Vec::new();
        diffs.push(ListDiff::Move { from, to });
        self.emit_diffs(&diffs);
        proof {
            let s0 = old(self).items();
            law_move_replays(s0, from, to);
            if old(self).in_sync() {
                lemma_broadcast_syncs(
                    old(self).delivered(),
                    old(self).observer_count(),
                    s0,
                    diffs@,
                    self.items@,
                );
            }
            if old(self).wf() {
                lemma_moved_keeps_ids(s0, from_idx as int, to_idx as int, self.next_id);
            }
        }
        true
    }

    fn move_within(&mut self, from_idx: usize, to_idx: usize)
        requires
            from_idx < old(self).items().len(),
            to_idx < old(self).items().len(),
            from_idx != to_idx,
        ensures
            final(self).items() == moved(old(self).items(), from_idx as int, to_idx as int),
            final(self).next_item_id() == old(self).next_item_id(),
            final(self).observer_count() == old(self).observer_count(),
            final(self).delivered() == old(self).delivered(),
            old(self).genuine() ==> final(self).genuine(),
            final(self).receipts@ == old(self).receipts@,
            final(self).observers@ == old(self).observers@,
    {
        let item = self.items.remove(from_idx);
        let adjusted_to = if from_idx < to_idx {
            to_idx - 1
        } else {
            to_idx
        };
        self.items.insert(adjusted_to, item);
    }

    /// Sorts the items by descending timestamp, keeping the order of items
    /// with equal timestamps. `false`, and no change, when they are already
    /// in that order. Otherwise the items are brought into it one target
    /// position at a time, and the moves made are sent as one batch.
    pub fn sort_by_timestamp_desc(&mut self) -> (changed: bool)
        ensures
            changed == !same_items(sorted_desc(old(self).items()), old(self).items()),
            final(self).items() == if changed {
                sort_outcome(old(self).items()).0
            } else {
                old(self).items()
            },
            final(self).next_item_id() == old(self).next_item_id(),
            final(self).observer_count() == old(self).observer_count(),
            final(self).delivered() == if changed && sort_outcome(old(self).items()).1.len() > 0 {
                old(self).delivered() + broadcast(
                    old(self).observer_count(),
                    sort_outcome(old(self).items()).1,
                )
            } else {
                old(self).delivered()
            },
            old(self).wf() && old(self).items().len() <= i64::MAX ==> final(self).wf(),
            old(self).genuine() ==> final(self).genuine(),
            old(self).wf() && old(self).in_sync() && old(self).items().len() <= i64::MAX
                ==> final(self).in_sync(),
    {
        let desired = sorted_desc_copy(&self.items);
        if same_item_lists(&desired, &self.items) {
            return false;
        }
        let ghost s0 = self.items@;
        proof {
            lemma_sorted_desc_len(s0);
        }
        let mut diffs: Vec<ListDiff> = Vec::new();
        let mut t: usize = 0;
        while t < desired.len()
            invariant
                t <= desired@.len(),
                desired@ == sorted_desc(s0),
                desired@.len() == s0.len(),
                (self.items@, diffs@) == reorder(s0, desired@, t as nat),
                s0 == old(self).items@,
                self.next_id == old(self).next_id,
                self.observers@ == old(self).observers@,
                self.receipts@ == old(self).receipts@,
            decreases desired@.len() - t,
        {
            proof {
                lemma_reorder_len(s0, desired@, t as nat);
            }
            let id = desired[t].id;
            let found = position_of_id(&self.items, id);
            proof {
                lemma_find_id_bounds(self.items@, id, 0);
            }
            match found {
                Some(p) => {
                    if p != t {
                        let item = self.items.remove(p);
                        self.items.insert(t, item);
                        diffs.push(ListDiff::Move { from: p as i64, to: t as i64 });
                    }
                },
                None => {},
            }
            t = t + 1;
        }
        if diffs.len() > 0 {
            self.emit_diffs(&diffs);
        } else {
            proof {
                if old(self).genuine() {
                    Self::lemma_same_log(old(self), self);
                }
            }
        }
        proof {
            if old(self).wf() && s0.len() <= i64::MAX {
                law_sort_moves_replay(s0);
                lemma_sorted_ids(s0, self.next_id);
                if old(self).in_sync() && diffs@.len() > 0 {
                    lemma_broadcast_syncs(
                        old(self).delivered(),
                        old(self).observer_count(),
                        s0,
                        diffs@,
                        self.items@,
                    );
                }
            }
        }
        true
    }

    /// Applies `diff` to the items; `false`, and no change, when it names an
    /// index the list lacks.
    fn apply_one(&mut self, diff: &ListDiff) -> (ok: bool)
        ensures
            match apply_diff(old(self).items(), *diff) {
                Some(s) => ok && final(self).items() == s,
                None => !ok && final(self).items() == old(self).items(),
            },
            final(self).next_item_id() == old(self).next_item_id(),
            final(self).observer_count() == old(self).observer_count(),
            final(self).delivered() == old(self).delivered(),
            old(self).genuine() ==> final(self).genuine(),
            final(self).receipts@ == old(self).receipts@,
            final(self).observers@ == old(self).observers@,
    {
        match diff {
            ListDiff::Insert { index, item } => match to_insert_index(*index, self.items.len()) {
                Some(idx) => {
                    self.items.insert(idx, copy_item(item));
                    true
                },
                None => false,
            },
            ListDiff::Update { index, item } => match to_index(*index, self.items.len()) {
                Some(idx) => {
                    self.items.set(idx, copy_item(item));
                    true
                },
                None => false,
            },
            ListDiff::Remove { index, .. } => match to_index(*index, self.items.len()) {
                Some(idx) => {
                    self.items.remove(idx);
                    true
                },
                None => false,
            },
            ListDiff::Move { from, to } => {
                let len = self.items.len();
                let from_idx = match to_index(*from, len) {
                    Some(value) => value,
                    None => {
                        return false;
                    },
                };
                let to_idx = match to_index(*to, len) {
                    Some(value) => value,
                    None => {
                        return false;
                    },
                };
                if from_idx != to_idx {
                    self.move_within(from_idx, to_idx);
                }
                true
            },
        }
    }

    /// Applies `diffs` in order and, when all apply, hands them to every
    /// observer. On the first diff that names an index the list lacks it
    /// stops and returns `false`: the diffs before it stay applied and nothing
    /// is sent. An empty batch returns `true` and sends nothing.
    pub fn apply_diffs(&mut self, diffs: Vec<ListDiff>) -> (res: bool)
        ensures
            res == apply_run(old(self).items(), diffs@).1,
            final(self).items() == apply_run(old(self).items(), diffs@).0,
            final(self).next_item_id() == old(self).next_item_id(),
            final(self).observer_count() == old(self).observer_count(),
            final(self).delivered() == if res && diffs@.len() > 0 {
                old(self).delivered() + broadcast(old(self).observer_count(), diffs@)
            } else {
                old(self).delivered()
            },
            old(self).in_sync() && res ==> final(self).in_sync(),
            old(self).genuine() ==> final(self).genuine(),
    {
        if diffs.len() == 0 {
            return true;
        }
        let ghost start = self.items@;
        let mut i: usize = 0;
        while i < diffs.len()
            invariant
                i <= diffs@.len(),
                start == old(self).items@,
                apply_run(start, diffs@.take(i as int)) == (self.items@, true),
                self.next_id == old(self).next_id,
                self.observers@ == old(self).observers@,
                self.receipts@ == old(self).receipts@,
            decreases diffs@.len() - i,
        {
            assert(diffs@.take(i + 1).drop_last() =~= diffs@.take(i as int));
            let ok = self.apply_one(&diffs[i]);
            if !ok {
                proof {
                    assert(diffs@.take(i + 1).last() == diffs@[i as int]);
                    assert(apply_run(start, diffs@.take(i + 1)) == (self.items@, false));
                    lemma_run_stops(start, diffs@, i + 1);
                    if old(self).genuine() {
                        Self::lemma_same_log(old(self), self);
                    }
                }
                return false;
            }
            i = i + 1;
        }
        assert(diffs@.take(diffs@.len() as int) =~= diffs@);
        self.emit_diffs(&diffs);
        proof {
            if old(self).in_sync() {
                lemma_broadcast_syncs(
                    old(self).delivered(),
                    old(self).observer_count(),
                    start,
                    diffs@,
                    self.items@,
                );
            }
        }
        true
    }
}

// ---------------------------------------------------------------------------
// Laws.
// ---------------------------------------------------------------------------

/// No two items share an id.
pub open spec fn distinct_ids(s: Seq<ListItem>) -> bool {
    forall|i: int, j: int| 0 <= i < j < s.len() ==> #[trigger] s[i].id != #[trigger] s[j].id
}

/// Applying `batch` in order to `before` succeeds and gives `after`.
pub open spec fn replays(before: Seq<ListItem>, batch: Seq<ListDiff>, after: Seq<ListItem>) -> bool {
    apply_run(before, batch) == (after, true)
}

proof fn lemma_single_diff(s: Seq<ListItem>, d: ListDiff)
    ensures
        apply_run(s, seq![d]) == match apply_diff(s, d) {
            Some(q) => (q, true),
            None => (s, false),
        },
{
    assert(seq![d].drop_last() =~= Seq::<ListDiff>::empty());
    assert(apply_run(s, Seq::<ListDiff>::empty()) == (s, true));
    assert(seq![d].last() == d);
}

/// The diff an insert sends, applied to the list before the insert, gives the
/// list after it.
pub proof fn law_insert_replays(s: Seq<ListItem>, index: i64, item: ListItem)
    requires
        checked_insert_index(index, s.len()) is Some,
    ensures
        replays(
            s,
            seq![ListDiff::Insert { index, item }],
            s.insert(checked_insert_index(index, s.len())->0, item),
        ),
{
    lemma_single_diff(s, ListDiff::Insert { index, item });
}

/// The diff an update sends, applied to the list before the update, gives the
/// list after it.
pub proof fn law_update_replays(s: Seq<ListItem>, index: i64, item: ListItem)
    requires
        checked_index(index, s.len()) is Some,
    ensures
        replays(
            s,
            seq![ListDiff::Update { index, item }],
            s.update(checked_index(index, s.len())->0, item),
        ),
{
    lemma_single_diff(s, ListDiff::Update { index, item });
}

/// The diff a removal sends, applied to the list before the removal, gives
/// the list after it.
pub proof fn law_remove_replays(s: Seq<ListItem>, index: i64)
    requires
        checked_index(index, s.len()) is Some,
    ensures
        replays(
            s,
            seq![ListDiff::Remove { index, id: s[checked_index(index, s.len())->0].id }],
            s.remove(checked_index(index, s.len())->0),
        ),
{
    lemma_single_diff(
        s,
        ListDiff::Remove { index, id: s[checked_index(index, s.len())->0].id },
    );
}

/// The diff a move sends, applied to the list before the move, gives the list
/// after it.
pub proof fn law_move_replays(s: Seq<ListItem>, from: i64, to: i64)
    requires
        checked_index(from, s.len()) is Some,
        checked_index(to, s.len()) is Some,
    ensures
        replays(
            s,
            seq![ListDiff::Move { from, to }],
            moved(s, checked_index(from, s.len())->0, checked_index(to, s.len())->0),
        ),
{
    lemma_single_diff(s, ListDiff::Move { from, to });
}

/// The inserts a new observer receives, applied in order to an empty list,
/// give the view model's list.
pub proof fn law_subscribe_replays(s: Seq<ListItem>)
    requires
        s.len() <= i64::MAX,
        s.len() <= usize::MAX,
    ensures
        replays(Seq::empty(), initial_diffs(s), s),
{
    lemma_initial_prefix(s, s.len() as int);
    assert(initial_diffs(s).take(s.len() as int) =~= initial_diffs(s));
    assert(s.take(s.len() as int) =~= s);
}

proof fn lemma_initial_prefix(s: Seq<ListItem>, k: int)
    requires
        0 <= k <= s.len(),
        s.len() <= i64::MAX,
        s.len() <= usize::MAX,
    ensures
        apply_run(Seq::empty(), initial_diffs(s).take(k)) == (s.take(k), true),
    decreases k,
{
    if k == 0 {
        assert(initial_diffs(s).take(0) =~= Seq::<ListDiff>::empty());
        assert(s.take(0) =~= Seq::<ListItem>::empty());
    } else {
        lemma_initial_prefix(s, k - 1);
        let ds = initial_diffs(s).take(k);
        assert(ds.drop_last() =~= initial_diffs(s).take(k - 1));
        assert(ds.last() == ListDiff::Insert { index: (k - 1) as usize as i64, item: s[k - 1] });
        assert(((k - 1) as usize as i64) as usize == k - 1);
        assert(s.take(k - 1).insert(k - 1, s[k - 1]) =~= s.take(k));
    }
}

/// The first position with an insertion slot: every item before it is at
/// least as new as `ts`; the item at it, if any, is older.
proof fn lemma_desc_slot_split(d: Seq<ListItem>, ts: i64, k: int)
    requires
        0 <= k <= d.len(),
        forall|i: int| 0 <= i < k ==> d[i].timestamp_ms >= ts,
    ensures
        k <= desc_slot(d, ts, k) <= d.len(),
        forall|i: int| 0 <= i < desc_slot(d, ts, k) ==> d[i].timestamp_ms >= ts,
        desc_slot(d, ts, k) < d.len() ==> d[desc_slot(d, ts, k)].timestamp_ms < ts,
    decreases d.len() - k,
{
    if k < d.len() && d[k].timestamp_ms >= ts {
        lemma_desc_slot_split(d, ts, k + 1);
    }
}

/// `s` is ordered by descending timestamp.
pub open spec fn newest_first(s: Seq<ListItem>) -> bool {
    forall|i: int, j: int|
        0 <= i < j < s.len() ==> #[trigger] s[i].timestamp_ms >= #[trigger] s[j].timestamp_ms
}

/// `sorted_desc` keeps the items (as a multiset) and orders them newest first.
pub proof fn law_sorted_desc(s: Seq<ListItem>)
    ensures
        sorted_desc(s).to_multiset() == s.to_multiset(),
        newest_first(sorted_desc(s)),
    decreases s.len(),
{
    broadcast use group_to_multiset_ensures;

    if s.len() > 0 {
        law_sorted_desc(s.drop_last());
        let d = sorted_desc(s.drop_last());
        let x = s.last();
        lemma_sorted_desc_len(s.drop_last());
        lemma_desc_slot_split(d, x.timestamp_ms, 0);
        let k = desc_slot(d, x.timestamp_ms, 0);
        let r = d.insert(k, x);
        assert(s.drop_last().push(x) =~= s);
        assert(r.to_multiset() =~= d.to_multiset().insert(x));
        assert forall|i: int, j: int| 0 <= i < j < r.len() implies #[trigger] r[i].timestamp_ms
            >= #[trigger] r[j].timestamp_ms by {
            if i < k {
                if j < k {
                    assert(r[i] == d[i] && r[j] == d[j]);
                } else if j == k {
                } else {
                    assert(r[j] == d[j - 1]);
                }
            } else if i == k {
                assert(r[j] == d[j - 1]);
                assert(d[k].timestamp_ms < x.timestamp_ms);
                if j - 1 > k {
                    assert(d[k].timestamp_ms >= d[j - 1].timestamp_ms);
                }
            } else {
                assert(r[i] == d[i - 1] && r[j] == d[j - 1]);
            }
        }
    }
}

proof fn lemma_no_duplicates_of_distinct_ids(s: Seq<ListItem>)
    requires
        distinct_ids(s),
    ensures
        s.no_duplicates(),
{
    assert forall|i: int, j: int|
        0 <= i < s.len() && 0 <= j < s.len() && i != j implies s[i] != s[j] by {
        if i < j {
            assert(s[i].id != s[j].id);
        } else {
            assert(s[j].id != s[i].id);
        }
    }
}

/// A permutation of a list with distinct ids has distinct ids.
proof fn lemma_distinct_ids_perm(s: Seq<ListItem>, d: Seq<ListItem>)
    requires
        distinct_ids(s),
        d.to_multiset() == s.to_multiset(),
    ensures
        distinct_ids(d),
        d.no_duplicates(),
{
    broadcast use group_to_multiset_ensures;

    lemma_no_duplicates_of_distinct_ids(s);
    s.lemma_multiset_has_no_duplicates();
    d.lemma_multiset_has_no_duplicates_conv();
    assert forall|i: int, j: int| 0 <= i < j < d.len() implies #[trigger] d[i].id
        != #[trigger] d[j].id by {
        if d[i].id == d[j].id {
            assert(d.to_multiset().count(d[i]) > 0);
            assert(d.to_multiset().count(d[j]) > 0);
            assert(s.contains(d[i]));
            assert(s.contains(d[j]));
            let a = choose|a: int| 0 <= a < s.len() && s[a] == d[i];
            let b = choose|b: int| 0 <= b < s.len() && s[b] == d[j];
            assert(d[i] != d[j]);
            if a < b {
                assert(s[a].id != s[b].id);
            } else if b < a {
                assert(s[b].id != s[a].id);
            }
        }
    }
}

/// One step of `reorder` toward `desired` keeps its invariant: the items are
/// a permutation of `desired`, agree with it on the first `t` positions, and
/// the moves so far replay from `s`.
proof fn lemma_reorder_step(s: Seq<ListItem>, desired: Seq<ListItem>, t: nat)
    requires
        distinct_ids(desired),
        desired.no_duplicates(),
        t < desired.len(),
        desired.len() <= i64::MAX,
        desired.len() <= usize::MAX,
        reorder(s, desired, t).0.to_multiset() == desired.to_multiset(),
        reorder(s, desired, t).0.take(t as int) == desired.take(t as int),
        replays(s, reorder(s, desired, t).1, reorder(s, desired, t).0),
    ensures
        reorder(s, desired, t + 1).0.to_multiset() == desired.to_multiset(),
        reorder(s, desired, t + 1).0.take((t + 1) as int) == desired.take((t + 1) as int),
        replays(s, reorder(s, desired, t + 1).1, reorder(s, desired, t + 1).0),
{
    broadcast use group_to_multiset_ensures;

    let (cur, moves) = reorder(s, desired, t);
    let x = desired[t as int];
    let n = desired.len();
    assert(cur.len() == n) by {
        assert(cur.to_multiset().len() == desired.to_multiset().len());
    }
    assert(cur.contains(x)) by {
        assert(desired.to_multiset().count(x) > 0);
    }
    let q = choose|q: int| 0 <= q < cur.len() && cur[q] == x;
    assert(q >= t) by {
        if q < t {
            assert(cur.take(t as int)[q] == desired.take(t as int)[q]);
            assert(desired[q] == desired[t as int]);
        }
    }
    lemma_find_id_first(cur, x.id, 0, q);
    let p = find_id_from(cur, x.id, 0)->0;
    assert(p >= t) by {
        if p < t {
            assert(cur.take(t as int)[p] == desired.take(t as int)[p]);
            assert(desired[p].id == desired[t as int].id);
        }
    }
    assert(cur[p] == x) by {
        assert(cur.to_multiset().count(cur[p]) > 0);
        assert(desired.contains(cur[p]));
        let k = choose|k: int| 0 <= k < desired.len() && desired[k] == cur[p];
        if k < t {
            assert(desired[k].id != desired[t as int].id);
        } else if k > t {
            assert(desired[t as int].id != desired[k].id);
        }
    }
    if p == t {
        assert(reorder(s, desired, t + 1) == (cur, moves));
        assert(cur.take((t + 1) as int) =~= desired.take((t + 1) as int)) by {
            assert forall|i: int| 0 <= i < t + 1 implies #[trigger] cur.take((t + 1) as int)[i] == desired.take((t + 1) as int)[i] by {
                if i < t {
                    assert(cur.take(t as int)[i] == desired.take(t as int)[i]);
                }
            }
        }
    } else {
        let next = cur.remove(p).insert(t as int, cur[p]);
        let step = ListDiff::Move { from: p as i64, to: t as i64 };
        assert(reorder(s, desired, t + 1) == (next, moves.push(step)));
        assert(next.to_multiset() =~= cur.to_multiset()) by {
            assert(cur.remove(p).to_multiset() =~= cur.to_multiset().remove(cur[p]));
            assert(next.to_multiset() =~= cur.remove(p).to_multiset().insert(cur[p]));
        }
        assert(next.take((t + 1) as int) =~= desired.take((t + 1) as int)) by {
            assert forall|i: int| 0 <= i < t + 1 implies #[trigger] next.take((t + 1) as int)[i] == desired.take((t + 1) as int)[i] by {
                if i < t {
                    assert(cur.take(t as int)[i] == desired.take(t as int)[i]);
                    assert(next[i] == cur[i]);
                }
            }
        }
        assert(moves.push(step).drop_last() =~= moves);
        assert(checked_index(p as i64, cur.len()) == Some(p));
        assert(checked_index(t as i64, cur.len()) == Some(t as int));
        assert(apply_diff(cur, step) == Some(next));
    }
}

proof fn lemma_find_id_first(s: Seq<ListItem>, id: i64, j: int, q: int)
    requires
        0 <= j <= q < s.len(),
        s[q].id == id,
    ensures
        find_id_from(s, id, j) matches Some(p) && j <= p <= q && s[p].id == id,
    decreases q - j,
{
    if s[j].id != id {
        lemma_find_id_first(s, id, j + 1, q);
    }
}

proof fn lemma_reorder_all(s: Seq<ListItem>, desired: Seq<ListItem>, t: nat)
    requires
        distinct_ids(desired),
        desired.no_duplicates(),
        t <= desired.len(),
        desired.len() <= i64::MAX,
        desired.len() <= usize::MAX,
        s.to_multiset() == desired.to_multiset(),
    ensures
        reorder(s, desired, t).0.to_multiset() == desired.to_multiset(),
        reorder(s, desired, t).0.take(t as int) == desired.take(t as int),
        replays(s, reorder(s, desired, t).1, reorder(s, desired, t).0),
    decreases t,
{
    if t == 0 {
        assert(s.take(0) =~= desired.take(0));
    } else {
        lemma_reorder_all(s, desired, (t - 1) as nat);
        lemma_reorder_step(s, desired, (t - 1) as nat);
    }
}

/// With distinct ids, sorting leaves the items newest first, as a
/// permutation of before, and the moves it sends, applied in order to the
/// list before the sort, give the list after it.
pub proof fn law_sort_moves_replay(s: Seq<ListItem>)
    requires
        distinct_ids(s),
        s.len() <= i64::MAX,
        s.len() <= usize::MAX,
    ensures
        sort_outcome(s).0 == sorted_desc(s),
        sorted_desc(s).to_multiset() == s.to_multiset(),
        newest_first(sorted_desc(s)),
        replays(s, sort_outcome(s).1, sorted_desc(s)),
{
    let d = sorted_desc(s);
    law_sorted_desc(s);
    lemma_sorted_desc_len(s);
    lemma_distinct_ids_perm(s, d);
    lemma_reorder_all(s, d, d.len());
    assert(d.take(d.len() as int) =~= d);
    let r = reorder(s, d, d.len()).0;
    assert(r.len() == d.len()) by {
        broadcast use group_to_multiset_ensures;

        assert(r.to_multiset().len() == d.to_multiset().len());
    }
    assert(r.take(d.len() as int) =~= r);
}

proof fn lemma_desc_slot_end(d: Seq<ListItem>, ts: i64, k: int)
    requires
        0 <= k <= d.len(),
        forall|j: int| k <= j < d.len() ==> #[trigger] d[j].timestamp_ms >= ts,
    ensures
        desc_slot(d, ts, k) == d.len(),
    decreases d.len() - k,
{
    if k < d.len() {
        lemma_desc_slot_end(d, ts, k + 1);
    }
}

proof fn lemma_sorted_desc_of_sorted(s: Seq<ListItem>)
    requires
        newest_first(s),
    ensures
        sorted_desc(s) == s,
    decreases s.len(),
{
    if s.len() > 0 {
        let p = s.drop_last();
        assert(newest_first(p)) by {
            assert forall|i: int, j: int| 0 <= i < j < p.len() implies #[trigger] p[i].timestamp_ms
                >= #[trigger] p[j].timestamp_ms by {
                assert(p[i] == s[i] && p[j] == s[j]);
            }
        }
        lemma_sorted_desc_of_sorted(p);
        let x = s.last();
        assert forall|j: int| 0 <= j < p.len() implies #[trigger] p[j].timestamp_ms
            >= x.timestamp_ms by {
            assert(p[j] == s[j]);
        }
        lemma_desc_slot_end(p, x.timestamp_ms, 0);
        assert(p.insert(p.len() as int, x) =~= s);
    }
}

/// Sorting is idempotent: the sorted list sorts to itself, so a second
/// `sort_by_timestamp_desc` right after a first reports no change.
pub proof fn law_sort_is_idempotent(s: Seq<ListItem>)
    ensures
        sorted_desc(sorted_desc(s)) == sorted_desc(s),
        same_items(sorted_desc(sorted_desc(s)), sorted_desc(s)),
{
    law_sorted_desc(s);
    lemma_sorted_desc_of_sorted(sorted_desc(s));
}

/// Removing at the index an insert just used gives back the list before the
/// insert.
pub proof fn law_remove_undoes_insert(s: Seq<ListItem>, index: i64, item: ListItem)
    requires
        checked_insert_index(index, s.len()) is Some,
    ensures
        checked_index(index, s.len() + 1) == checked_insert_index(index, s.len()),
        s.insert(checked_insert_index(index, s.len())->0, item).remove(
            checked_insert_index(index, s.len())->0,
        ) == s,
{
    let i = checked_insert_index(index, s.len())->0;
    assert(s.insert(i, item).remove(i) =~= s);
}

// ---------------------------------------------------------------------------
// Keeping replicas in step.
// ---------------------------------------------------------------------------

/// The batches delivered to observer `k`, in delivery order.
pub open spec fn batches_for(log: Seq<Delivery>, k: nat) -> Seq<Seq<ListDiff>>
    decreases log.len(),
{
    if log.len() == 0 {
        Seq::empty()
    } else if log.last().0 == k {
        batches_for(log.drop_last(), k).push(log.last().1)
    } else {
        batches_for(log.drop_last(), k)
    }
}

/// A replica that starts as `s` and hands each batch in turn to
/// `apply_diffs`: its items, and whether every batch applied.
pub open spec fn replica_run(s: Seq<ListItem>, batches: Seq<Seq<ListDiff>>) -> (Seq<ListItem>, bool)
    decreases batches.len(),
{
    if batches.len() == 0 {
        (s, true)
    } else {
        let (p, ok) = replica_run(s, batches.drop_last());
        if !ok {
            (p, false)
        } else {
            apply_run(p, batches.last())
        }
    }
}

/// Every delivery in `log` went to one of the `n` observers, and a replica
/// that starts empty and applies the batches delivered to any one of them,
/// in order, accepts every batch and holds `s`.
pub open spec fn synced(log: Seq<Delivery>, n: nat, s: Seq<ListItem>) -> bool {
    &&& forall|i: int| 0 <= i < log.len() ==> (#[trigger] log[i]).0 < n
    &&& forall|k: nat| k < n ==> replica_run(Seq::empty(), #[trigger] batches_for(log, k)) == (s, true)
}

proof fn lemma_batches_broadcast(log: Seq<Delivery>, m: nat, b: Seq<ListDiff>, k: nat)
    ensures
        batches_for(log + broadcast(m, b), k) == if k < m {
            batches_for(log, k).push(b)
        } else {
            batches_for(log, k)
        },
    decreases m,
{
    if m == 0 {
        assert(log + broadcast(0, b) =~= log);
    } else {
        let l2 = log + broadcast(m, b);
        assert(l2.drop_last() =~= log + broadcast((m - 1) as nat, b));
        assert(l2.last() == ((m - 1) as nat, b));
        lemma_batches_broadcast(log, (m - 1) as nat, b, k);
    }
}

proof fn lemma_batches_absent(log: Seq<Delivery>, k: nat)
    requires
        forall|i: int| 0 <= i < log.len() ==> (#[trigger] log[i]).0 < k,
    ensures
        batches_for(log, k) == Seq::<Seq<ListDiff>>::empty(),
    decreases log.len(),
{
    if log.len() > 0 {
        let p = log.drop_last();
        assert forall|i: int| 0 <= i < p.len() implies (#[trigger] p[i]).0 < k by {
            assert(p[i] == log[i]);
        }
        assert(log[log.len() - 1].0 < k);
        lemma_batches_absent(p, k);
    }
}

/// When the items go from `s` to `s2` and the diffs `b` that take `s` to
/// `s2` are handed to every observer, the replicas stay in step.
proof fn lemma_broadcast_syncs(log: Seq<Delivery>, n: nat, s: Seq<ListItem>, b: Seq<ListDiff>, s2: Seq<ListItem>)
    requires
        synced(log, n, s),
        apply_run(s, b) == (s2, true),
    ensures
        synced(log + broadcast(n, b), n, s2),
{
    let l2 = log + broadcast(n, b);
    assert forall|i: int| 0 <= i < l2.len() implies (#[trigger] l2[i]).0 < n by {
        if i < log.len() {
            assert(l2[i] == log[i]);
        } else {
            assert(l2[i] == broadcast(n, b)[i - log.len()]);
        }
    }
    assert forall|k: nat| k < n implies replica_run(Seq::empty(), #[trigger] batches_for(l2, k)) == (
        s2,
        true,
    ) by {
        lemma_batches_broadcast(log, n, b, k);
        let bs = batches_for(log, k);
        assert(bs.push(b).drop_last() =~= bs);
        assert(replica_run(Seq::empty(), bs) == (s, true));
    }
}

/// A new observer that is brought up to date with one insert per item (none
/// for an empty list) joins the replicas in step.
proof fn lemma_subscribe_syncs(log: Seq<Delivery>, n: nat, s: Seq<ListItem>)
    requires
        synced(log, n, s),
        s.len() <= i64::MAX,
        s.len() <= usize::MAX,
    ensures
        synced(
            if s.len() == 0 {
                log
            } else {
                log.push((n, initial_diffs(s)))
            },
            n + 1,
            s,
        ),
{
    let l2 = if s.len() == 0 {
        log
    } else {
        log.push((n, initial_diffs(s)))
    };
    lemma_batches_absent(log, n);
    assert forall|i: int| 0 <= i < l2.len() implies (#[trigger] l2[i]).0 < n + 1 by {
        if i < log.len() {
            assert(l2[i] == log[i]);
        }
    }
    assert forall|k: nat| k < n + 1 implies replica_run(Seq::empty(), #[trigger] batches_for(l2, k))
        == (s, true) by {
        if s.len() == 0 {
            if k == n {
                assert(s =~= Seq::<ListItem>::empty());
                assert(batches_for(l2, k) == Seq::<Seq<ListDiff>>::empty());
                assert(replica_run(Seq::empty(), Seq::<Seq<ListDiff>>::empty()) == (
                    Seq::<ListItem>::empty(),
                    true,
                ));
            } else {
                assert(replica_run(Seq::empty(), batches_for(log, k)) == (s, true));
            }
        } else {
            assert(l2.drop_last() =~= log);
            assert(l2.last() == (n, initial_diffs(s)));
            if k == n {
                law_subscribe_replays(s);
                let one = Seq::<Seq<ListDiff>>::empty().push(initial_diffs(s));
                assert(batches_for(l2, k) == one);
                assert(one.drop_last() =~= Seq::<Seq<ListDiff>>::empty());
                assert(one.last() == initial_diffs(s));
                assert(replica_run(Seq::empty(), Seq::<Seq<ListDiff>>::empty()) == (
                    Seq::<ListItem>::empty(),
                    true,
                ));
            } else {
                assert(batches_for(l2, k) == batches_for(log, k));
                assert(replica_run(Seq::empty(), batches_for(log, k)) == (s, true));
            }
        }
    }
}

/// Every diff is a `Move` to an earlier position.
pub open spec fn moves_toward_front(ds: Seq<ListDiff>) -> bool {
    forall|i: int| 0 <= i < ds.len() ==> (#[trigger] ds[i] matches ListDiff::Move { from, to } && from > to)
}

proof fn lemma_reorder_moves_forward(s: Seq<ListItem>, desired: Seq<ListItem>, t: nat)
    requires
        distinct_ids(desired),
        desired.no_duplicates(),
        t <= desired.len(),
        desired.len() == s.len(),
        desired.len() <= i64::MAX,
        desired.len() <= usize::MAX,
        s.to_multiset() == desired.to_multiset(),
    ensures
        moves_toward_front(reorder(s, desired, t).1),
        reorder(s, desired, t).1.len() == 0 ==> reorder(s, desired, t).0 == s,
    decreases t,
{
    if t > 0 {
        let target = t - 1;
        lemma_reorder_moves_forward(s, desired, (t - 1) as nat);
        lemma_reorder_all(s, desired, (t - 1) as nat);
        lemma_reorder_len(s, desired, (t - 1) as nat);
        let (cur, moves) = reorder(s, desired, (t - 1) as nat);
        let id = desired[target].id;
        lemma_find_id_bounds(cur, id, 0);
        match find_id_from(cur, id, 0) {
            None => {},
            Some(p) => {
                if p != target {
                    if p < target {
                        assert(cur.take(target) == desired.take(target));
                        assert(cur[p] == cur.take(target)[p]);
                        assert(desired[p].id == id);
                        assert(desired[p].id != desired[target].id);
                    }
                    let m = moves.push(ListDiff::Move { from: p as i64, to: target as i64 });
                    assert forall|i: int| 0 <= i < m.len() implies (#[trigger] m[i] matches ListDiff::Move {
                        from,
                        to,
                    } && from > to) by {
                        if i < moves.len() {
                            assert(m[i] == moves[i]);
                        }
                    }
                }
            },
        }
    }
}

/// With distinct ids, every move that sorting sends takes an item to an
/// earlier position, and a sort that changes the order sends at least one
/// move.
pub proof fn law_sort_moves_go_forward(s: Seq<ListItem>)
    requires
        distinct_ids(s),
        s.len() <= i64::MAX,
        s.len() <= usize::MAX,
    ensures
        moves_toward_front(sort_outcome(s).1),
        !same_items(sorted_desc(s), s) ==> sort_outcome(s).1.len() > 0,
{
    let d = sorted_desc(s);
    law_sorted_desc(s);
    lemma_sorted_desc_len(s);
    lemma_distinct_ids_perm(s, d);
    lemma_reorder_moves_forward(s, d, d.len());
    law_sort_moves_replay(s);
}

/// Sorting keeps the items as a multiset, so distinct ids stay distinct and
/// every id stays below `bound`.
proof fn lemma_sorted_ids(s: Seq<ListItem>, bound: i64)
    requires
        distinct_ids(s),
        forall|i: int| 0 <= i < s.len() ==> (#[trigger] s[i]).id < bound,
    ensures
        distinct_ids(sorted_desc(s)),
        forall|i: int| 0 <= i < sorted_desc(s).len() ==> (#[trigger] sorted_desc(s)[i]).id < bound,
{
    broadcast use group_to_multiset_ensures;

    let d = sorted_desc(s);
    law_sorted_desc(s);
    lemma_distinct_ids_perm(s, d);
    assert forall|i: int| 0 <= i < d.len() implies (#[trigger] d[i]).id < bound by {
        assert(d.to_multiset().count(d[i]) > 0);
        assert(s.contains(d[i]));
    }
}

/// Every item of `s` has an id below `bound`.
pub open spec fn ids_below(s: Seq<ListItem>, bound: i64) -> bool {
    forall|i: int| 0 <= i < s.len() ==> (#[trigger] s[i]).id < bound
}

proof fn lemma_insert_keeps_ids(s: Seq<ListItem>, i: int, x: ListItem, bound: i64, new_bound: i64)
    requires
        0 <= i <= s.len(),
        distinct_ids(s),
        ids_below(s, bound),
        forall|j: int| 0 <= j < s.len() ==> (#[trigger] s[j]).id != x.id,
        x.id < new_bound,
        bound <= new_bound,
    ensures
        distinct_ids(s.insert(i, x)),
        ids_below(s.insert(i, x), new_bound),
{
    let r = s.insert(i, x);
    assert forall|a: int, b: int| 0 <= a < b < r.len() implies #[trigger] r[a].id != #[trigger] r[b].id by {
        if a < i {
            if b < i {
                assert(r[a] == s[a] && r[b] == s[b]);
            } else if b == i {
                assert(r[a] == s[a]);
            } else {
                assert(r[a] == s[a] && r[b] == s[b - 1]);
            }
        } else if a == i {
            assert(r[b] == s[b - 1]);
        } else {
            assert(r[a] == s[a - 1] && r[b] == s[b - 1]);
        }
    }
    assert forall|j: int| 0 <= j < r.len() implies (#[trigger] r[j]).id < new_bound by {
        if j < i {
            assert(r[j] == s[j]);
        } else if j > i {
            assert(r[j] == s[j - 1]);
        }
    }
}

proof fn lemma_remove_keeps_ids(s: Seq<ListItem>, i: int, bound: i64)
    requires
        0 <= i < s.len(),
        distinct_ids(s),
        ids_below(s, bound),
    ensures
        distinct_ids(s.remove(i)),
        ids_below(s.remove(i), bound),
        forall|j: int| 0 <= j < s.remove(i).len() ==> (#[trigger] s.remove(i)[j]).id != s[i].id,
{
    let r = s.remove(i);
    assert forall|a: int, b: int| 0 <= a < b < r.len() implies #[trigger] r[a].id != #[trigger] r[b].id by {
        if a < i {
            if b < i {
                assert(r[a] == s[a] && r[b] == s[b]);
            } else {
                assert(r[a] == s[a] && r[b] == s[b + 1]);
            }
        } else {
            assert(r[a] == s[a + 1] && r[b] == s[b + 1]);
        }
    }
    assert forall|j: int| 0 <= j < r.len() implies (#[trigger] r[j]).id < bound by {
        if j < i {
            assert(r[j] == s[j]);
        } else {
            assert(r[j] == s[j + 1]);
        }
    }
    assert forall|j: int| 0 <= j < r.len() implies (#[trigger] r[j]).id != s[i].id by {
        if j < i {
            assert(r[j] == s[j]);
        } else {
            assert(r[j] == s[j + 1]);
        }
    }
}

proof fn lemma_update_keeps_ids(s: Seq<ListItem>, i: int, x: ListItem, bound: i64)
    requires
        0 <= i < s.len(),
        distinct_ids(s),
        ids_below(s, bound),
        x.id == s[i].id,
    ensures
        distinct_ids(s.update(i, x)),
        ids_below(s.update(i, x), bound),
{
    let r = s.update(i, x);
    assert forall|a: int, b: int| 0 <= a < b < r.len() implies #[trigger] r[a].id != #[trigger] r[b].id by {
        assert(r[a].id == s[a].id && r[b].id == s[b].id);
    }
    assert forall|j: int| 0 <= j < r.len() implies (#[trigger] r[j]).id < bound by {
        assert(r[j].id == s[j].id);
    }
}

proof fn lemma_moved_keeps_ids(s: Seq<ListItem>, f: int, t: int, bound: i64)
    requires
        0 <= f < s.len(),
        0 <= t < s.len(),
        distinct_ids(s),
        ids_below(s, bound),
    ensures
        distinct_ids(moved(s, f, t)),
        ids_below(moved(s, f, t), bound),
{
    if f != t {
        lemma_remove_keeps_ids(s, f, bound);
        let t2 = if f < t {
            t - 1
        } else {
            t
        };
        lemma_insert_keeps_ids(s.remove(f), t2, s[f], bound, bound);
    }
}

/// Replaying what a view model sends reproduces it: take a second view model
/// that starts empty and hands every batch one observer of the first
/// receives, in order, to `apply_diffs`. With `genuine`, those batches are
/// the ones the first view model handed to that observer's `on_diffs`. While the first view model is in
/// sync (as `new` leaves it, and as every insert, update, removal, move,
/// subscription, sort of a list with distinct ids and successful
/// `apply_diffs` keeps it), every such batch applies and the second view
/// model holds exactly the first one's items.
pub proof fn law_forwarded_batches_replay<O: ?Sized + ListObserver>(vm: ListViewModel<O>, k: nat)
    requires
        vm.genuine(),
        vm.in_sync(),
        k < vm.observer_count(),
    ensures
        replica_run(Seq::empty(), batches_for(vm.delivered(), k)) == (vm.items(), true),
{
}

/// A replica takes the batches one at a time, as `apply_diffs` does: after
/// the batches `done` it holds `s`, and the next batch `b` leaves it as
/// `apply_diffs` leaves `s` on `b`.
pub proof fn law_replica_steps(start: Seq<ListItem>, done: Seq<Seq<ListDiff>>, b: Seq<ListDiff>, s: Seq<ListItem>)
    requires
        replica_run(start, done) == (s, true),
    ensures
        replica_run(start, done.push(b)) == apply_run(s, b),
{
    assert(done.push(b).drop_last() =~= done);
}

} // verus!
