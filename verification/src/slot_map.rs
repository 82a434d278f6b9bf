//! A free-list–backed registry that hands out stable integer indices.
//!
//! Each slot is either occupied by a value or free; free slots form a
//! LIFO chain threaded through the storage, so the most recently freed
//! slot is the first one reused by an insertion.

use vstd::prelude::*;

verus! {

enum SlotEntry<T> {
    Occupied(T),
    Free { next_free: i32 },
}

/// A compact free-list–backed container that hands out stable integer indices.
///
/// Reuses slots from removed entries before growing the backing `Vec`.
pub struct SlotMap<T> {
    slots: Vec<SlotEntry<T>>,
    first_free: i32,
    /// The indices of the free slots, most recently freed first; mirrors the
    /// chain that `first_free` and the `next_free` links thread through `slots`.
    free_order: Ghost<Seq<int>>,
}

impl<T> View for SlotMap<T> {
    type V = Seq<Option<T>>;

    closed spec fn view(&self) -> Seq<Option<T>> {
        self.slots@.map_values(
            |e: SlotEntry<T>|
                match e {
                    SlotEntry::Occupied(v) => Some(v),
                    SlotEntry::Free { .. } => None,
                },
        )
    }
}

impl<T> SlotMap<T> {
    /// The indices of the free slots, in the order insertions will reuse them.
    pub closed spec fn free_list(&self) -> Seq<int> {
        self.free_order@
    }

    /// How many slots are free.
    pub open spec fn free_len(&self) -> nat {
        self.free_list().len()
    }

    /// The index the next insertion will occupy: the most recently freed
    /// slot if one exists, else the first index past the current storage.
    pub open spec fn next_index(&self) -> int {
        if self.free_len() > 0 {
            self.free_list()[0]
        } else {
            self@.len() as int
        }
    }

    /// `i` names an occupied slot.
    pub open spec fn live(&self, i: int) -> bool {
        0 <= i < self@.len() && self@[i] is Some
    }

    /// An insertion can be placed: either a slot is free for reuse, or the
    /// storage still has room to grow within the index type.
    pub open spec fn can_insert(&self) -> bool {
        self.free_len() > 0 || self@.len() < i32::MAX as int
    }

    /// `e` is a free entry whose link points at `next`.
    spec fn free_with_next(e: SlotEntry<T>, next: int) -> bool {
        e matches SlotEntry::Free { next_free } && next_free as int == next
    }

    /// The `k`-th index recorded in `fl` is in bounds of `slots`, free, and
    /// linked to the following recorded index (or to `-1` at the chain's end).
    spec fn link_ok_in(slots: Seq<SlotEntry<T>>, fl: Seq<int>, k: int) -> bool {
        &&& 0 <= fl[k] < slots.len()
        &&& Self::free_with_next(
            slots[fl[k]],
            if k + 1 < fl.len() {
                fl[k + 1]
            } else {
                -1
            },
        )
    }

    /// `link_ok_in` for this registry's own storage.
    spec fn free_link_ok(&self, fl: Seq<int>, k: int) -> bool {
        Self::link_ok_in(self.slots@, fl, k)
    }

    /// The free chain is exactly the set of free slots: `first_free` heads
    /// the recorded order, each link points at the next entry, the entries
    /// are distinct, in bounds, free, and every free slot is among them.
    pub closed spec fn wf(&self) -> bool {
        let fl = self.free_order@;
        &&& self.slots@.len() <= i32::MAX as int
        &&& self.first_free as int == if fl.len() > 0 {
            fl[0]
        } else {
            -1
        }
        &&& forall|k: int| 0 <= k < fl.len() ==> #[trigger] self.free_link_ok(fl, k)
        &&& forall|k1: int, k2: int|
            0 <= k1 < k2 < fl.len() ==> #[trigger] fl[k1] != #[trigger] fl[k2]
        &&& forall|i: int|
            0 <= i < self.slots@.len() && self.slots@[i] is Free ==> #[trigger] fl.contains(i)
    }

    /// Insert a value and return its stable index.
    ///
    /// Reuses the most recently freed slot if one exists, else appends.
    pub fn insert(&mut self, value: T) -> (index: i32)
        requires
            old(self).wf(),
            old(self).can_insert(),
        ensures
            final(self).wf(),
            inserted(*old(self), *final(self), index as int, value),
            final(self).live(index as int),
            final(self)@[index as int] == Some(value),
    {
        proof {
            assert(self@.len() == self.slots@.len());
        }
        if self.first_free >= 0 {
            let idx = self.first_free;
            proof {
                assert(self.free_link_ok(self.free_order@, 0));
                assert(self.free_order@[0] == idx as int);
                assert(self@[idx as int] is None);
            }
            let i = idx as usize;
            let next = match &self.slots[i] {
                SlotEntry::Free { next_free } => *next_free,
                SlotEntry::Occupied(_) => unreached(),
            };
            self.slots.set(i, SlotEntry::Occupied(value));
            self.first_free = next;
            proof {
                self.free_order = Ghost(self.free_order@.drop_first());
            }
            proof {
                let oldfl = old(self).free_order@;
                let fl = self.free_order@;
                assert forall|k: int| 0 <= k < fl.len() implies #[trigger] self.free_link_ok(
                    fl,
                    k,
                ) by {
                    assert(old(self).free_link_ok(oldfl, k + 1));
                    assert(fl[k] == oldfl[k + 1]);
                    assert(oldfl[0] != oldfl[k + 1]);
                }
                assert forall|j: int|
                    0 <= j < self.slots@.len() && self.slots@[j] is Free implies #[trigger] fl.contains(
                    j) by {
                    assert(old(self).slots@[j] is Free);
                    assert(oldfl.contains(j));
                    let k = choose|k: int| 0 <= k < oldfl.len() && oldfl[k] == j;
                    assert(k != 0);
                    assert(fl[k - 1] == j);
                }
                assert(self@ =~= old(self)@.update(idx as int, Some(value)));
            }
            idx
        } else {
            let idx = self.slots.len() as i32;
            self.slots.push(SlotEntry::Occupied(value));
            proof {
                let fl = self.free_order@;
                assert(fl.len() == 0) by {
                    if fl.len() > 0 {
                        assert(old(self).free_link_ok(fl, 0));
                    }
                }
                assert forall|j: int|
                    0 <= j < self.slots@.len() && self.slots@[j] is Free implies #[trigger] fl.contains(
                    j) by {
                    assert(j < old(self).slots@.len());
                    assert(old(self).slots@[j] is Free);
                }
                assert(self@ =~= old(self)@.push(Some(value)));
            }
            idx
        }
    }

    /// Remove the entry at `index`, returning the value.
    ///
    /// The freed slot becomes the head of the free chain, so the next
    /// insertion will reuse exactly this index.
    ///
    /// # Panics
    /// Panics if the slot is already free or `index` is out of bounds.
    pub fn remove(&mut self, index: i32) -> (value: T)
        requires
            old(self).wf(),
            old(self).live(index as int),
        ensures
            final(self).wf(),
            old(self)@[index as int] == Some(value),
            final(self)@ == old(self)@.update(index as int, None),
            final(self).free_list() == seq![index as int] + old(self).free_list(),
            final(self).next_index() == index as int,
    {
        proof {
            assert(self@.len() == self.slots@.len());
        }
        let i = index as usize;
        let mut taken = SlotEntry::Free { next_free: self.first_free };
        let elem = &mut self.slots[i];
        core::mem::swap(elem, &mut taken);
        self.first_free = index;
        proof {
            self.free_order = Ghost(seq![index as int] + self.free_order@);
        }
        proof {
            let oldfl = old(self).free_order@;
            let fl = self.free_order@;
            assert(old(self).slots@[index as int] is Occupied);
            assert forall|k: int| 0 <= k < fl.len() implies #[trigger] self.free_link_ok(
                fl,
                k,
            ) by {
                if k > 0 {
                    assert(old(self).free_link_ok(oldfl, k - 1));
                    assert(fl[k] == oldfl[k - 1]);
                } else {
                    if oldfl.len() > 0 {
                        assert(old(self).free_link_ok(oldfl, 0));
                    }
                }
            }
            assert forall|k1: int, k2: int| 0 <= k1 < k2 < fl.len() implies #[trigger] fl[k1]
                != #[trigger] fl[k2] by {
                if k1 == 0 {
                    assert(old(self).free_link_ok(oldfl, k2 - 1));
                }
            }
            assert forall|j: int|
                0 <= j < self.slots@.len() && self.slots@[j] is Free implies #[trigger] fl.contains(
                j) by {
                if j != index as int {
                    assert(old(self).slots@[j] is Free);
                    assert(oldfl.contains(j));
                    let k = choose|k: int| 0 <= k < oldfl.len() && oldfl[k] == j;
                    assert(fl[k + 1] == j);
                } else {
                    assert(fl[0] == j);
                }
            }
            assert(self@ =~= old(self)@.update(index as int, None));
        }
        match taken {
            SlotEntry::Occupied(v) => v,
            SlotEntry::Free { .. } => unreached(),
        }
    }

    /// Borrow the value at `index`.
    ///
    /// # Panics
    /// Panics if the slot is free or `index` is out of bounds.
    pub fn get(&self, index: i32) -> (value: &T)
        requires
            self.wf(),
            self.live(index as int),
        ensures
            self@[index as int] == Some(*value),
    {
        proof {
            assert(self@.len() == self.slots@.len());
        }
        match &self.slots[index as usize] {
            SlotEntry::Occupied(v) => v,
            SlotEntry::Free { .. } => unreached(),
        }
    }

    /// Mutably borrow the value at `index`.
    ///
    /// # Panics
    /// Panics if the slot is free or `index` is out of bounds.
    pub fn get_mut(&mut self, index: i32) -> (value: &mut T)
        requires
            old(self).wf(),
            old(self).live(index as int),
        ensures
            old(self)@[index as int] == Some(*value),
            final(self)@ == old(self)@.update(index as int, Some(*final(value))),
            final(self).free_list() == old(self).free_list(),
            final(self).wf(),
    {
        proof {
            assert(self@.len() == self.slots@.len());
            let i = index as int;
            let fl = self.free_order@;
            assert forall|k: int| 0 <= k < fl.len() implies #[trigger] fl[k] != i by {
                assert(self.free_link_ok(fl, k));
            }
            assert forall|w: T, k: int| 0 <= k < fl.len() implies #[trigger] Self::link_ok_in(
                self.slots@.update(i, SlotEntry::Occupied(w)),
                fl,
                k,
            ) by {
                assert(self.free_link_ok(fl, k));
            }
            assert forall|w: T, j: int|
                #![trigger self.slots@.update(i, SlotEntry::Occupied(w))[j]]
                0 <= j < self.slots@.len() && self.slots@.update(i, SlotEntry::Occupied(w))[j]
                    is Free implies fl.contains(j) by {
                assert(self.slots@[j] is Free);
            }
        }
        match &mut self.slots[index as usize] {
            SlotEntry::Occupied(v) => v,
            SlotEntry::Free { .. } => unreached(),
        }
    }

    /// The occupied entries of the first `n` slots, in storage order, each
    /// paired with its index.
    pub open spec fn occupied_entries(s: Seq<Option<T>>, n: int) -> Seq<(int, T)>
        decreases n,
    {
        if n <= 0 {
            Seq::empty()
        } else {
            let prefix = Self::occupied_entries(s, n - 1);
            match s[n - 1] {
                Some(v) => prefix.push((n - 1, v)),
                None => prefix,
            }
        }
    }

    /// All occupied entries as `(index, value)` pairs, in storage order
    /// (the order slots were first allocated, not the order of access).
    pub fn iter(&self) -> (r: Vec<(i32, &T)>)
        requires
            self.wf(),
        ensures
            r@.map_values(|p: (i32, &T)| (p.0 as int, *p.1)) == Self::occupied_entries(
                self@,
                self@.len() as int,
            ),
    {
        proof {
            assert(self@.len() == self.slots@.len());
        }
        let mut r: Vec<(i32, &T)> = Vec::new();
        let mut j: usize = 0;
        while j < self.slots.len()
            invariant
                j <= self.slots@.len() <= i32::MAX as int,
                self@.len() == self.slots@.len(),
                r@.map_values(|p: (i32, &T)| (p.0 as int, *p.1)) == Self::occupied_entries(
                    self@,
                    j as int,
                ),
            decreases self.slots@.len() - j,
        {
            match &self.slots[j] {
                SlotEntry::Occupied(v) => {
                    r.push((j as i32, v));
                    proof {
                        assert(self@[j as int] == Some(*v));
                        assert(r@.map_values(|p: (i32, &T)| (p.0 as int, *p.1))
                            =~= Self::occupied_entries(self@, j + 1));
                    }
                },
                SlotEntry::Free { .. } => {
                    proof {
                        assert(self@[j as int] is None);
                    }
                },
            }
            j += 1;
        }
        r
    }

    /// Whether an insertion can currently be placed (see
    /// [`SlotMap::can_insert`]).
    pub fn has_room(&self) -> (r: bool)
        requires
            self.wf(),
        ensures
            r == self.can_insert(),
    {
        proof {
            assert(self@.len() == self.slots@.len());
            if self.free_len() > 0 {
                assert(self.free_link_ok(self.free_order@, 0));
            }
        }
        self.first_free >= 0 || self.slots.len() < i32::MAX as usize
    }

    /// Whether `index` names an occupied slot.
    pub fn contains(&self, index: i32) -> (r: bool)
        requires
            self.wf(),
        ensures
            r == self.live(index as int),
    {
        proof {
            assert(self@.len() == self.slots@.len());
        }
        if index < 0 {
            return false;
        }
        let i = index as usize;
        if i >= self.slots.len() {
            return false;
        }
        match &self.slots[i] {
            SlotEntry::Occupied(_) => true,
            SlotEntry::Free { .. } => false,
        }
    }
}

impl<T> Default for SlotMap<T> {
    /// An empty registry with no free slots recorded.
    fn default() -> (s: Self)
        ensures
            s.wf(),
            s@ == Seq::<Option<T>>::empty(),
            s.free_len() == 0,
    {
        let s = SlotMap { slots: Vec::new(), first_free: -1, free_order: Ghost(Seq::empty()) };
        proof {
            assert(s@ =~= Seq::<Option<T>>::empty());
        }
        s
    }
}

/// What one insertion does: in `post`, `value` occupies the slot of `pre`
/// that insertion chooses — the most recently freed slot, which is in
/// bounds and free in `pre`, or a fresh slot appended at `pre`'s end.
/// Either way every other slot keeps its value and the storage never
/// shrinks.
pub open spec fn inserted<T>(pre: SlotMap<T>, post: SlotMap<T>, index: int, value: T) -> bool {
    &&& index == pre.next_index()
    &&& if pre.free_len() > 0 {
        &&& 0 <= index < pre@.len()
        &&& pre@[index] is None
        &&& post@ == pre@.update(index, Some(value))
        &&& post.free_list() == pre.free_list().drop_first()
    } else {
        &&& index == pre@.len()
        &&& post@ == pre@.push(Some(value))
        &&& post.free_list() == pre.free_list()
    }
}

/// Freed slots are reused most-recently-freed first: a registry whose free
/// chain was just headed by `i` (as `remove` leaves it) hands out exactly
/// `i` on the next insertion.
pub proof fn lemma_removed_index_reused<T>(post: SlotMap<T>, i: int)
    requires
        post.free_len() > 0,
        post.free_list()[0] == i,
    ensures
        post.next_index() == i,
{
}

/// While no slot is free, insertions return strictly increasing indices:
/// each insertion appends, so the index the next one will use is larger.
pub proof fn lemma_fresh_indices_increase<T>(pre: SlotMap<T>, post: SlotMap<T>)
    requires
        pre.free_len() == 0,
        post.free_len() == 0,
        post@.len() == pre@.len() + 1,
    ensures
        pre.next_index() < post.next_index(),
{
}

/// Like [`SlotMap`], but with the mutating operations usable while the
/// caller only coordinates access dynamically: value access goes through
/// closures, so a caller can never keep a dangling borrow into the storage.
pub struct SlotMapRefCell<T> {
    inner: SlotMap<T>,
}

impl<T> View for SlotMapRefCell<T> {
    type V = Seq<Option<T>>;

    closed spec fn view(&self) -> Seq<Option<T>> {
        self.inner@
    }
}

impl<T> SlotMapRefCell<T> {
    /// The indices of the free slots, in the order insertions will reuse them.
    pub closed spec fn free_list(&self) -> Seq<int> {
        self.inner.free_list()
    }

    /// How many slots are free.
    pub open spec fn free_len(&self) -> nat {
        self.free_list().len()
    }

    /// The index the next insertion will occupy.
    pub open spec fn next_index(&self) -> int {
        if self.free_len() > 0 {
            self.free_list()[0]
        } else {
            self@.len() as int
        }
    }

    /// `i` names an occupied slot.
    pub open spec fn live(&self, i: int) -> bool {
        0 <= i < self@.len() && self@[i] is Some
    }

    /// An insertion can be placed: a free slot exists, or the storage can
    /// still grow within the index type.
    pub open spec fn can_insert(&self) -> bool {
        self.free_len() > 0 || self@.len() < i32::MAX as int
    }

    /// The wrapped registry is well formed.
    pub closed spec fn wf(&self) -> bool {
        self.inner.wf()
    }

    /// Insert a value and return its stable index.
    pub fn insert(&mut self, value: T) -> (index: i32)
        requires
            old(self).wf(),
            old(self).can_insert(),
        ensures
            final(self).wf(),
            index as int == old(self).next_index(),
            final(self).live(index as int),
            final(self)@[index as int] == Some(value),
            old(self).free_len() > 0 ==> 0 <= index as int && (index as int) < old(self)@.len()
                && old(self)@[index as int] is None && final(self)@ == old(self)@.update(
                index as int,
                Some(value),
            ) && final(self).free_list() == old(self).free_list().drop_first(),
            old(self).free_len() == 0 ==> index as int == old(self)@.len() && final(self)@ == old(
                self,
            )@.push(Some(value)) && final(self).free_list() == old(self).free_list(),
    {
        self.inner.insert(value)
    }

    /// Remove the entry at `index`, returning the value.
    ///
    /// # Panics
    /// Panics if the slot is already free or `index` is out of bounds.
    pub fn remove(&mut self, index: i32) -> (value: T)
        requires
            old(self).wf(),
            old(self).live(index as int),
        ensures
            final(self).wf(),
            old(self)@[index as int] == Some(value),
            final(self)@ == old(self)@.update(index as int, None),
            final(self).free_list() == seq![index as int] + old(self).free_list(),
            final(self).next_index() == index as int,
    {
        self.inner.remove(index)
    }

    /// Borrow the value at `index` for the duration of the closure `f`.
    ///
    /// # Panics
    /// Panics if the slot is free or `index` is out of bounds.
    pub fn with<R, F: FnOnce(&T) -> R>(&self, index: i32, f: F) -> (r: R)
        requires
            self.wf(),
            self.live(index as int),
            call_requires(f, (&self@[index as int].unwrap(),)),
        ensures
            call_ensures(f, (&self@[index as int].unwrap(),), r),
    {
        let v = self.inner.get(index);
        f(v)
    }

    /// Replace the value at `index` through the closure `f`: `f` receives
    /// the stored value and returns the value to store plus a result for
    /// the caller.
    ///
    /// # Panics
    /// Panics if the slot is free or `index` is out of bounds.
    pub fn with_mut<R, F: FnOnce(T) -> (T, R)>(&mut self, index: i32, f: F) -> (r: R)
        requires
            old(self).wf(),
            old(self).live(index as int),
            call_requires(f, (old(self)@[index as int].unwrap(),)),
        ensures
            final(self).wf(),
            final(self).free_list() == old(self).free_list(),
            call_ensures(
                f,
                (old(self)@[index as int].unwrap(),),
                (final(self)@[index as int].unwrap(), r),
            ),
            final(self)@ == old(self)@.update(
                index as int,
                Some(final(self)@[index as int].unwrap()),
            ),
    {
        let v = self.inner.remove(index);
        let (v2, r) = f(v);
        let idx2 = self.inner.insert(v2);
        proof {
            assert(idx2 == index);
            assert(self.inner@ =~= old(self)@.update(index as int, Some(v2)));
        }
        r
    }

    /// Call `f` on every occupied entry, in storage order.
    ///
    /// # Panics
    /// Panics if `f` panics.
    pub fn for_each<F: Fn(i32, &T)>(&self, f: F)
        requires
            self.wf(),
            forall|i: int|
                self.live(i) ==> #[trigger] call_requires(f, (i as i32, &self@[i].unwrap())),
        ensures
            forall|i: int|
                self.live(i) ==> #[trigger] call_ensures(f, (i as i32, &self@[i].unwrap()), ()),
    {
        let ghost occ = SlotMap::<T>::occupied_entries(self@, self@.len() as int);
        let entries = self.inner.iter();
        let n = entries.len();
        let mut j: usize = 0;
        while j < n
            invariant
                n == entries@.len(),
                j <= n,
                entries@.map_values(|p: (i32, &T)| (p.0 as int, *p.1)) == occ,
                occ == SlotMap::<T>::occupied_entries(self@, self@.len() as int),
                forall|i: int|
                    self.live(i) ==> #[trigger] call_requires(f, (i as i32, &self@[i].unwrap())),
                forall|k: int|
                    0 <= k < j ==> #[trigger] call_ensures(
                        f,
                        ((occ[k].0) as i32, &self@[occ[k].0].unwrap()),
                        (),
                    ),
            decreases n - j,
        {
            let (i, v) = entries[j];
            proof {
                lemma_occupied_entries_live::<T>(self@, self@.len() as int, j as int);
                assert(entries@.map_values(|p: (i32, &T)| (p.0 as int, *p.1))[j as int] == (
                i as int,
                *v,
                ));
                assert(self@[i as int] == Some(*v));
                assert(self.live(i as int));
                assert(call_requires(f, ((i as int) as i32, &self@[i as int].unwrap())));
                assert((i as int) as i32 == i);
                assert(self@[i as int].unwrap() == *v);
                assert(occ[j as int] == (i as int, *v));
            }
            f(i, v);
            proof {
                assert(call_ensures(f, ((occ[j as int].0) as i32, &self@[occ[j as int].0].unwrap()), ()));
            }
            j += 1;
        }
        proof {
            assert forall|i: int| self.live(i) implies #[trigger] call_ensures(
                f,
                (i as i32, &self@[i].unwrap()),
                (),
            ) by {
                lemma_occupied_entries_complete::<T>(self@, self@.len() as int, i);
                let k = choose|k: int|
                    0 <= k < occ.len() && occ[k] == (i, self@[i].unwrap());
                assert(call_ensures(f, ((occ[k].0) as i32, &self@[occ[k].0].unwrap()), ()));
            }
        }
    }
}

impl<T> Default for SlotMapRefCell<T> {
    /// An empty registry with no free slots recorded.
    fn default() -> (s: Self)
        ensures
            s.wf(),
            s@ == Seq::<Option<T>>::empty(),
            s.free_len() == 0,
    {
        SlotMapRefCell { inner: SlotMap::default() }
    }
}

/// Every occupied index among the first `n` slots appears in
/// `occupied_entries`, paired with the value stored there.
pub proof fn lemma_occupied_entries_complete<T>(s: Seq<Option<T>>, n: int, i: int)
    requires
        0 <= i < n <= s.len(),
        s[i] is Some,
    ensures
        exists|k: int|
            0 <= k < SlotMap::<T>::occupied_entries(s, n).len()
                && #[trigger] SlotMap::<T>::occupied_entries(s, n)[k] == (i, s[i].unwrap()),
    decreases n,
{
    let occ = SlotMap::<T>::occupied_entries(s, n);
    if i == n - 1 {
        assert(occ[occ.len() - 1] == (i, s[i].unwrap()));
    } else {
        lemma_occupied_entries_complete::<T>(s, n - 1, i);
        let occp = SlotMap::<T>::occupied_entries(s, n - 1);
        let k = choose|k: int| 0 <= k < occp.len() && #[trigger] occp[k] == (i, s[i].unwrap());
        assert(occ[k] == (i, s[i].unwrap()));
    }
}

/// Every pair listed by `occupied_entries` is a live index paired with the
/// value stored there.
pub proof fn lemma_occupied_entries_live<T>(s: Seq<Option<T>>, n: int, k: int)
    requires
        n <= s.len(),
        0 <= k < SlotMap::<T>::occupied_entries(s, n).len(),
    ensures
        ({
            let p = SlotMap::<T>::occupied_entries(s, n)[k];
            0 <= p.0 < n && s[p.0] == Some(p.1)
        }),
    decreases n,
{
    if n > 0 {
        let prefix = SlotMap::<T>::occupied_entries(s, n - 1);
        if k < prefix.len() {
            lemma_occupied_entries_live::<T>(s, n - 1, k);
        }
    }
}

} // verus!
