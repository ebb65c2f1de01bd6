use vstd::prelude::*;

verus! {

/// A stable, generation-checked reference into an [`Arena`].
///
/// A handle carries no ownership: it names a slot and the generation the
/// slot had when the handle was issued. It resolves only while that
/// generation is still current, so a handle that survives the removal of
/// its referent is detected instead of aliasing a later occupant.
#[derive(Clone, Copy, Debug, PartialEq, Eq, Structural, Hash)]
pub struct Handle {
    /// Position of the slot inside the arena.
    pub index: usize,
    /// Generation the slot had when this handle was issued.
    pub generation: u64,
}

impl Handle {
    /// Pack an index and a generation into a handle.
    pub fn new(index: usize, generation: u64) -> (r: Handle)
        ensures
            r.index == index,
            r.generation == generation,
    {
        Handle { index, generation }
    }
}

/// One slot of an [`Arena`]: the generation it is currently at and the
/// value it holds while occupied. The generation moves forward every time
/// the slot is vacated, so handles stamped with an earlier generation can
/// never resolve again.
pub struct Slot<T> {
    /// Current generation of this slot.
    pub generation: u64,
    /// The stored value, while the slot is occupied.
    pub value: Option<T>,
}

/// Number of occupied slots among the first `n` entries of `s`.
pub closed spec fn occ_upto<T>(s: Seq<Slot<T>>, n: int) -> int
    decreases n,
{
    if n <= 0 {
        0
    } else {
        occ_upto(s, n - 1) + if s[n - 1].value is Some {
            1int
        } else {
            0int
        }
    }
}

proof fn lemma_occ_bounds<T>(s: Seq<Slot<T>>, n: int)
    requires
        0 <= n <= s.len(),
    ensures
        0 <= occ_upto(s, n) <= n,
    decreases n,
{
    if n > 0 {
        lemma_occ_bounds(s, n - 1);
    }
}

proof fn lemma_occ_update<T>(s: Seq<Slot<T>>, i: int, slot: Slot<T>, n: int)
    requires
        0 <= i < s.len(),
        n <= s.len(),
    ensures
        occ_upto(s.update(i, slot), n) == occ_upto(s, n) + if i < n {
            (if slot.value is Some { 1int } else { 0int })
                - (if s[i].value is Some { 1int } else { 0int })
        } else {
            0int
        },
    decreases n,
{
    if n > 0 {
        lemma_occ_update(s, i, slot, n - 1);
    }
}

proof fn lemma_occ_push<T>(s: Seq<Slot<T>>, slot: Slot<T>, n: int)
    requires
        n <= s.len(),
    ensures
        occ_upto(s.push(slot), n) == occ_upto(s, n),
    decreases n,
{
    if n > 0 {
        lemma_occ_push(s, slot, n - 1);
    }
}

proof fn lemma_occ_all_none<T>(s: Seq<Slot<T>>, n: int)
    requires
        n <= s.len(),
        forall|i: int| 0 <= i < n ==> s[i].value is None,
    ensures
        occ_upto(s, n) == 0,
    decreases n,
{
    if n > 0 {
        lemma_occ_all_none(s, n - 1);
    }
}

proof fn lemma_occ_some_at<T>(s: Seq<Slot<T>>, i: int, n: int)
    requires
        0 <= i < n <= s.len(),
        s[i].value is Some,
    ensures
        occ_upto(s, n) >= occ_upto(s, i + 1) >= 1,
    decreases n,
{
    lemma_occ_bounds(s, i);
    if n > i + 1 {
        lemma_occ_some_at(s, i, n - 1);
        lemma_occ_bounds(s, n - 1);
    }
}

/// A generation-checked, index-addressed container.
///
/// Every live value sits in a slot addressed by a [`Handle`]. Removing a
/// value moves its slot's generation forward before the slot can be
/// reused, so a stale handle yields a clean "not found" instead of an
/// aliased access to a later occupant.
pub struct Arena<T> {
    slots: Vec<Slot<T>>,
    free: Vec<usize>,
    count: usize,
}

impl<T> Arena<T> {
    /// Number of slots ever created, occupied or vacant.
    pub closed spec fn n_slots(&self) -> int {
        self.slots@.len() as int
    }

    /// Generation of the slot at index `i`.
    pub closed spec fn gen_at(&self, i: int) -> u64 {
        self.slots@[i].generation
    }

    /// Value held by the slot at index `i`, if it is occupied.
    pub closed spec fn val_at(&self, i: int) -> Option<T> {
        self.slots@[i].value
    }

    /// Number of occupied slots.
    pub closed spec fn spec_len(&self) -> int {
        self.count as int
    }

    /// Whether `h` names a slot that is occupied at `h`'s generation.
    pub open spec fn resolves(&self, h: Handle) -> bool {
        &&& (h.index as int) < self.n_slots()
        &&& self.gen_at(h.index as int) == h.generation
        &&& self.val_at(h.index as int) is Some
    }

    /// The value `h` refers to: present exactly while `h` resolves.
    pub open spec fn spec_get(&self, h: Handle) -> Option<T> {
        if self.resolves(h) {
            self.val_at(h.index as int)
        } else {
            None
        }
    }

    /// Whether `h`'s slot has moved past `h`'s generation. A stale handle
    /// can never resolve again, since generations only grow.
    pub open spec fn stale(&self, h: Handle) -> bool {
        &&& (h.index as int) < self.n_slots()
        &&& self.gen_at(h.index as int) > h.generation
    }

    /// Internal consistency: the free list names exactly reusable vacant
    /// slots, without duplicates, and no slot usable for a future handle
    /// has exhausted its generation counter.
    pub closed spec fn wf(&self) -> bool {
        &&& self.count as int == occ_upto(self.slots@, self.slots@.len() as int)
        &&& forall|k: int|
            0 <= k < self.free@.len() ==> (#[trigger] self.free@[k] as int) < self.slots@.len()
        &&& forall|k: int|
            0 <= k < self.free@.len() ==> self.slots@[#[trigger] self.free@[k] as int].value is None
        &&& forall|k: int|
            0 <= k < self.free@.len() ==> self.slots@[#[trigger] self.free@[k] as int].generation
                < u64::MAX
        &&& forall|k1: int, k2: int|
            0 <= k1 < k2 < self.free@.len() ==> self.free@[k1] != self.free@[k2]
        &&& forall|i: int|
            0 <= i < self.slots@.len() && (#[trigger] self.slots@[i].value) is Some
                ==> self.slots@[i].generation < u64::MAX
    }

    /// Create an empty arena.
    pub fn new() -> (r: Arena<T>)
        ensures
            r.wf(),
            r.n_slots() == 0,
            r.spec_len() == 0,
    {
        Arena { slots: Vec::new(), free: Vec::new(), count: 0 }
    }

    /// Number of live values.
    pub fn len(&self) -> (r: usize)
        ensures
            r as int == self.spec_len(),
    {
        self.count
    }

    /// Whether the arena holds no live value.
    pub fn is_empty(&self) -> (r: bool)
        ensures
            r <==> self.spec_len() == 0,
    {
        self.count == 0
    }

    /// The handle that the next `insert` will issue.
    pub closed spec fn spec_next_handle(&self) -> Handle {
        if self.free@.len() > 0 {
            Handle {
                index: self.free@.last(),
                generation: self.slots@[self.free@.last() as int].generation,
            }
        } else {
            Handle { index: self.slots@.len() as usize, generation: 0 }
        }
    }

    /// Tell, without changing anything, which handle the next `insert`
    /// will issue. This lets a value that must know its own identity be
    /// stamped before it is stored.
    pub fn next_handle(&self) -> (h: Handle)
        requires
            self.wf(),
        ensures
            h == self.spec_next_handle(),
            !self.resolves(h),
    {
        let n_free = self.free.len();
        if n_free > 0 {
            let i = self.free[n_free - 1];
            Handle { index: i, generation: self.slots[i].generation }
        } else {
            Handle { index: self.slots.len(), generation: 0 }
        }
    }

    /// Store `value` and return a unique, generation-stamped handle to it.
    /// No other slot is disturbed, and no generation moves backwards.
    pub fn insert(&mut self, value: T) -> (h: Handle)
        requires
            old(self).wf(),
        ensures
            final(self).wf(),
            h == old(self).spec_next_handle(),
            !old(self).resolves(h),
            final(self).resolves(h),
            final(self).spec_get(h) == Some(value),
            final(self).spec_len() == old(self).spec_len() + 1,
            final(self).n_slots() == if (h.index as int) < old(self).n_slots() {
                old(self).n_slots()
            } else {
                old(self).n_slots() + 1
            },
            forall|i: int|
                0 <= i < old(self).n_slots() && i != h.index as int ==> final(self).gen_at(i)
                    == old(self).gen_at(i) && final(self).val_at(i) == old(self).val_at(i),
            generations_grow(*old(self), *final(self)),
            forall|h2: Handle|
                old(self).resolves(h2) ==> #[trigger] final(self).resolves(h2)
                    && final(self).spec_get(h2) == old(self).spec_get(h2),
    {
        let ghost pre = *self;
        let h: Handle;
        let n_free = self.free.len();
        if n_free > 0 {
            let i = match self.free.pop() {
                Some(i) => i,
                None => {
                    proof {
                        assert(false);
                    }
                    0
                },
            };
            let g = self.slots[i].generation;
            self.slots[i] = Slot { generation: g, value: Some(value) };
            proof {
                lemma_occ_update(pre.slots@, i as int, self.slots@[i as int], pre.slots@.len() as int);
                lemma_occ_bounds(pre.slots@, pre.slots@.len() as int);
                lemma_occ_some_at(self.slots@, i as int, self.slots@.len() as int);
                lemma_occ_update(self.slots@, i as int, pre.slots@[i as int], self.slots@.len() as int);
            }
            h = Handle { index: i, generation: g };
        } else {
            let i = self.slots.len();
            self.slots.push(Slot { generation: 0, value: Some(value) });
            proof {
                lemma_occ_push(pre.slots@, self.slots@.last(), pre.slots@.len() as int);
                lemma_occ_bounds(pre.slots@, pre.slots@.len() as int);
            }
            h = Handle { index: i, generation: 0 };
        }
        let n_now = self.slots.len();
        proof {
            lemma_occ_bounds(self.slots@, self.slots@.len() as int);
            assert(self.count as int + 1 == occ_upto(self.slots@, self.slots@.len() as int));
            assert(self.count < n_now);
        }
        self.count = self.count + 1;
        h
    }

    /// Look the value behind `h` up. Returns the value exactly when `h`'s
    /// generation is still current; a stale, foreign or never-issued
    /// handle yields `None`, never a panic and never another slot's value.
    pub fn get(&self, h: Handle) -> (r: Option<&T>)
        ensures
            r is Some <==> self.resolves(h),
            match r {
                Some(v) => self.spec_get(h) == Some(*v),
                None => self.spec_get(h) is None,
            },
    {
        if h.index < self.slots.len() {
            let slot = &self.slots[h.index];
            if slot.generation == h.generation {
                slot.value.as_ref()
            } else {
                None
            }
        } else {
            None
        }
    }

    /// Borrow the value behind a handle that is known to resolve, for
    /// mutation in place. The slot keeps its generation: the handle still
    /// resolves afterwards, to whatever the caller made of the value.
    pub fn borrow_mut(&mut self, h: Handle) -> (r: &mut T)
        requires
            old(self).wf(),
            old(self).resolves(h),
        ensures
            final(self).wf(),
            Some(*r) == old(self).spec_get(h),
            final(self).n_slots() == old(self).n_slots(),
            final(self).spec_len() == old(self).spec_len(),
            final(self).spec_next_handle() == old(self).spec_next_handle(),
            forall|i: int|
                0 <= i < old(self).n_slots() ==> final(self).gen_at(i) == old(self).gen_at(i),
            forall|i: int|
                0 <= i < old(self).n_slots() && i != h.index as int ==> final(self).val_at(i)
                    == old(self).val_at(i),
            final(self).val_at(h.index as int) == Some(*final(r)),
            final(self).resolves(h),
            generations_grow(*old(self), *final(self)),
    {
        let ghost pre = *self;
        let slot = &mut self.slots[h.index];
        proof {
            assert(pre.slots@[h.index as int].value is Some);
        }
        let r = match &mut slot.value {
            Some(v) => v,
            None => unreached(),
        };
        proof {
            lemma_occ_update(
                pre.slots@,
                h.index as int,
                Slot { generation: h.generation, value: Some(*final(r)) },
                pre.slots@.len() as int,
            );
        }
        r
    }

    /// Evict the value behind `h` and hand ownership back to the caller
    /// for explicit destruction. The slot's generation moves forward, so
    /// `h` — and every copy of it — is stale from here on. A handle that
    /// does not resolve changes nothing.
    pub fn remove(&mut self, h: Handle) -> (r: Option<T>)
        requires
            old(self).wf(),
        ensures
            final(self).wf(),
            generations_grow(*old(self), *final(self)),
            r is Some <==> old(self).resolves(h),
            r == old(self).spec_get(h),
            old(self).resolves(h) ==> {
                &&& final(self).gen_at(h.index as int) == h.generation + 1
                &&& final(self).val_at(h.index as int) is None
                &&& final(self).stale(h)
                &&& final(self).spec_len() == old(self).spec_len() - 1
            },
            !old(self).resolves(h) ==> *final(self) == *old(self),
            final(self).n_slots() == old(self).n_slots(),
            forall|i: int|
                0 <= i < old(self).n_slots() && i != h.index as int ==> final(self).gen_at(i)
                    == old(self).gen_at(i) && final(self).val_at(i) == old(self).val_at(i),
    {
        let ghost pre = *self;
        if h.index >= self.slots.len() {
            return None;
        }
        if self.slots[h.index].generation != h.generation {
            return None;
        }
        if self.slots[h.index].value.is_none() {
            return None;
        }
        let g = h.generation;
        proof {
            lemma_occ_some_at(pre.slots@, h.index as int, pre.slots@.len() as int);
        }
        let mut taken = Slot { generation: g + 1, value: None };
        core::mem::swap(&mut self.slots[h.index], &mut taken);
        proof {
            lemma_occ_update(pre.slots@, h.index as int, self.slots@[h.index as int], pre.slots@.len() as int);
            lemma_occ_bounds(self.slots@, self.slots@.len() as int);
            // h.index is not already on the free list: its slot was occupied.
            assert(forall|k: int|
                0 <= k < self.free@.len() ==> self.free@[k] != h.index);
        }
        if g < u64::MAX - 1 {
            self.free.push(h.index);
        }
        self.count = self.count - 1;
        taken.value
    }

    /// Empty the arena, yielding every live value together with the handle
    /// it was stored under, for bulk explicit destruction. Every slot is
    /// vacated and its generation moved forward, so no handle issued
    /// before the drain resolves afterwards.
    pub fn drain(&mut self) -> (r: Vec<(Handle, T)>)
        requires
            old(self).wf(),
        ensures
            final(self).wf(),
            generations_grow(*old(self), *final(self)),
            final(self).spec_len() == 0,
            final(self).n_slots() == old(self).n_slots(),
            forall|i: int| 0 <= i < final(self).n_slots() ==> final(self).val_at(i) is None,
            forall|h: Handle| old(self).resolves(h) ==> #[trigger] final(self).stale(h),
            r@.len() == old(self).spec_len(),
            forall|k: int|
                0 <= k < r@.len() ==> old(self).resolves(#[trigger] r@[k].0) && old(self).spec_get(
                    r@[k].0,
                ) == Some(r@[k].1),
            forall|k1: int, k2: int|
                0 <= k1 < k2 < r@.len() ==> r@[k1].0.index != r@[k2].0.index,
    {
        let ghost pre = *self;
        let mut out: Vec<(Handle, T)> = Vec::new();
        let n = self.slots.len();
        let mut i: usize = 0;
        proof {
            lemma_occ_bounds(pre.slots@, pre.slots@.len() as int);
        }
        while i < n
            invariant
                n == self.slots@.len(),
                n == pre.slots@.len(),
                i <= n,
                self.wf(),
                // below i everything is vacated; at i and beyond nothing has changed
                forall|j: int| 0 <= j < i ==> self.slots@[j].value is None,
                forall|j: int|
                    0 <= j < i ==> self.slots@[j].generation >= pre.slots@[j].generation
                        && (pre.slots@[j].value is Some ==> self.slots@[j].generation
                        > pre.slots@[j].generation),
                forall|j: int| i <= j < n ==> self.slots@[j] == pre.slots@[j],
                // what has been drained so far
                out@.len() == occ_upto(pre.slots@, i as int),
                out@.len() + self.count == pre.count,
                forall|k: int|
                    0 <= k < out@.len() ==> pre.resolves(#[trigger] out@[k].0) && pre.spec_get(
                        out@[k].0,
                    ) == Some(out@[k].1) && (out@[k].0.index as int) < i,
                forall|k1: int, k2: int|
                    0 <= k1 < k2 < out@.len() ==> out@[k1].0.index < out@[k2].0.index,
            decreases n - i,
        {
            let ghost loop_pre = *self;
            let g = self.slots[i].generation;
            if self.slots[i].value.is_some() {
                proof {
                    lemma_occ_some_at(loop_pre.slots@, i as int, loop_pre.slots@.len() as int);
                }
                let mut taken = Slot { generation: g + 1, value: None };
                core::mem::swap(&mut self.slots[i], &mut taken);
                proof {
                    lemma_occ_update(loop_pre.slots@, i as int, self.slots@[i as int], loop_pre.slots@.len() as int);
                    lemma_occ_bounds(self.slots@, self.slots@.len() as int);
                    assert(forall|k: int|
                        0 <= k < self.free@.len() ==> self.free@[k] != i);
                }
                if g < u64::MAX - 1 {
                    self.free.push(i);
                }
                self.count = self.count - 1;
                let v = match taken.value {
                    Some(v) => v,
                    None => {
                        proof {
                            assert(false);
                        }
                        unreached()
                    },
                };
                out.push((Handle { index: i, generation: g }, v));
            }
            i = i + 1;
        }
        proof {
            lemma_occ_all_none(self.slots@, self.slots@.len() as int);
        }
        out
    }
}

/// Generations never move backwards and slots are never forgotten: the
/// relation every arena operation preserves between the state before and
/// after it.
pub open spec fn generations_grow<T>(pre: Arena<T>, post: Arena<T>) -> bool {
    &&& pre.n_slots() <= post.n_slots()
    &&& forall|i: int| 0 <= i < pre.n_slots() ==> pre.gen_at(i) <= #[trigger] post.gen_at(i)
}

/// Law: an arena holding no live value answers no handle at all — an
/// emptied container has no resolvable handles left, of any generation.
pub proof fn lemma_empty_arena_resolves_nothing<T>(a: Arena<T>)
    requires
        a.wf(),
        a.spec_len() == 0,
    ensures
        forall|h: Handle| !a.resolves(h),
{
    assert forall|h: Handle| !a.resolves(h) by {
        if a.resolves(h) {
            lemma_occ_some_at(a.slots@, h.index as int, a.slots@.len() as int);
        }
    }
}

/// Law: a handle that has gone stale — its slot's generation has moved
/// past the one the handle carries — never resolves again, no matter what
/// is inserted later, even into the very same slot: later occupants carry
/// later generations.
pub proof fn lemma_stale_handle_never_resolves<T>(pre: Arena<T>, post: Arena<T>, h: Handle)
    requires
        pre.stale(h),
        generations_grow(pre, post),
    ensures
        !post.resolves(h),
        post.spec_get(h) is None,
{
}

} // verus!
