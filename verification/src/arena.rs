//! Generational handle-indexed storage.
//!
//! An [`Arena`] stores values in slots addressed by a [`Handle`]: a slot
//! index paired with the generation the slot had when the value was put in.
//! Removing a value bumps its slot's generation, so every handle taken out
//! before the removal goes stale and can never again resolve, even after the
//! slot is reused. That gives stable identity across removal and reuse, which
//! the solver and the cascade removals depend on.

use vstd::prelude::*;

verus! {

/// A stable reference to a stored value: slot index plus generation.
#[derive(Clone, Copy, Debug, PartialEq, Eq, Hash, Structural)]
pub struct Handle {
    pub index: usize,
    pub generation: u64,
}

/// One storage slot: its current generation and, when occupied, its value.
#[derive(Clone, Debug)]
pub struct Slot<T> {
    pub generation: u64,
    pub value: Option<T>,
}

/// Whether a slot adds one stored value to the tally.
pub open spec fn tally<T>(s: Slot<T>) -> int {
    if s.value is Some {
        1
    } else {
        0
    }
}

/// Number of stored values among the slots from position `i` on.
pub open spec fn occ_from<T>(s: Seq<Slot<T>>, i: int) -> int
    decreases s.len() - i,
{
    if i < 0 || i >= s.len() {
        0
    } else {
        tally(s[i]) + occ_from(s, i + 1)
    }
}

/// Number of stored values among all slots.
pub open spec fn occ<T>(s: Seq<Slot<T>>) -> int {
    occ_from(s, 0)
}

/// A slot that a fresh value may move into: vacant, with room left in its
/// generation counter.
pub open spec fn usable<T>(s: Slot<T>) -> bool {
    s.value is None && s.generation < u64::MAX
}

/// Handle-indexed storage with generational slots.
#[derive(Clone, Debug)]
pub struct Arena<T> {
    pub slots: Vec<Slot<T>>,
}

proof fn lemma_occ_nonneg<T>(s: Seq<Slot<T>>, i: int)
    requires
        0 <= i <= s.len(),
    ensures
        0 <= occ_from(s, i) <= s.len() - i,
    decreases s.len() - i,
{
    if 0 <= i < s.len() {
        lemma_occ_nonneg(s, i + 1);
    }
}

proof fn lemma_occ_update<T>(s: Seq<Slot<T>>, i: int, j: int, e: Slot<T>)
    requires
        0 <= j < s.len(),
        0 <= i,
    ensures
        occ_from(s.update(j, e), i) == if i <= j {
            occ_from(s, i) - tally(s[j]) + tally(e)
        } else {
            occ_from(s, i)
        },
    decreases s.len() - i,
{
    if i < s.len() {
        lemma_occ_update(s, i + 1, j, e);
    }
}

proof fn lemma_occ_update_all<T>(s: Seq<Slot<T>>, j: int)
    requires
        0 <= j < s.len(),
    ensures
        forall|e: Slot<T>| occ(#[trigger] s.update(j, e)) == occ(s) - tally(s[j]) + tally(e),
{
    assert forall|e: Slot<T>|
        occ(#[trigger] s.update(j, e)) == occ(s) - tally(s[j]) + tally(e) by {
        lemma_occ_update(s, 0, j, e);
    }
}

proof fn lemma_occ_push<T>(s: Seq<Slot<T>>, i: int, e: Slot<T>)
    requires
        0 <= i <= s.len(),
    ensures
        occ_from(s.push(e), i) == occ_from(s, i) + tally(e),
    decreases s.len() - i,
{
    if i < s.len() {
        assert(s.push(e)[i] == s[i]);
        lemma_occ_push(s, i + 1, e);
    } else {
        assert(s.push(e)[i] == e);
        assert(occ_from(s.push(e), i + 1) == 0);
    }
}

/// Whether `h` refers to a stored value among the slots `s`.
pub open spec fn slot_valid<T>(s: Seq<Slot<T>>, h: Handle) -> bool {
    &&& 0 <= (h.index as int) < s.len()
    &&& s[h.index as int].generation == h.generation
    &&& s[h.index as int].value is Some
}

/// The value `h` refers to among the slots `s`.
pub open spec fn slot_at<T>(s: Seq<Slot<T>>, h: Handle) -> T
    recommends
        slot_valid(s, h),
{
    s[h.index as int].value->0
}

impl<T> Arena<T> {
    /// Every occupied slot still has room in its generation counter.
    pub open spec fn wf(self) -> bool {
        forall|i: int| #![trigger self.slots@[i]]
            0 <= i < self.slots@.len() && self.slots@[i].value is Some
                ==> self.slots@[i].generation < u64::MAX
    }

    /// Whether `h` currently refers to a stored value.
    pub open spec fn valid(self, h: Handle) -> bool {
        slot_valid(self.slots@, h)
    }

    /// The value `h` refers to.
    pub open spec fn at(self, h: Handle) -> T
        recommends
            self.valid(h),
    {
        slot_at(self.slots@, h)
    }

    /// An empty arena.
    pub fn new() -> (r: Arena<T>)
        ensures
            r.wf(),
            r.slots@.len() == 0,
    {
        Arena { slots: Vec::new() }
    }

    /// Number of stored values.
    pub fn len(&self) -> (r: usize)
        ensures
            r == occ(self.slots@),
    {
        let n: usize = self.slots.len();
        let mut acc: usize = 0;
        let mut i: usize = 0;
        proof {
            lemma_occ_nonneg(self.slots@, 0);
        }
        while i < n
            invariant
                0 <= i <= n,
                n == self.slots@.len(),
                acc + occ_from(self.slots@, i as int) == occ(self.slots@),
                occ(self.slots@) <= n,
            decreases n - i,
        {
            proof {
                lemma_occ_nonneg(self.slots@, i + 1);
            }
            let occupied: bool = self.slots[i].value.is_some();
            if occupied {
                acc = acc + 1;
            }
            i = i + 1;
        }
        acc
    }

    /// Whether no value is stored.
    pub fn is_empty(&self) -> (r: bool)
        ensures
            r <==> occ(self.slots@) == 0,
    {
        self.len() == 0
    }

    /// Store a value in the first usable slot (or a brand-new slot) and hand
    /// back a handle that refers to it. Every handle that was valid before
    /// stays valid and keeps its value, and the new handle is distinct from
    /// all of them.
    pub fn insert(&mut self, value: T) -> (h: Handle)
        requires
            old(self).wf(),
        ensures
            final(self).wf(),
            final(self).valid(h),
            final(self).at(h) == value,
            !old(self).valid(h),
            occ(final(self).slots@) == occ(old(self).slots@) + 1,
            h.generation == old(self).slots@[h.index as int].generation || h.index
                == old(self).slots@.len(),
            // the chosen slot is the first usable one
            forall|j: int| 0 <= j < h.index ==> !usable(old(self).slots@[j]),
            h.index as int == old(self).slots@.len() ==> h.generation == 0 && final(self).slots@
                == old(self).slots@.push(Slot { generation: 0u64, value: Some(value) }),
            (h.index as int) < old(self).slots@.len() ==> usable(
                old(self).slots@[h.index as int],
            ) && final(self).slots@ == old(self).slots@.update(
                h.index as int,
                Slot { generation: h.generation, value: Some(value) },
            ),
            // frame: every other slot is untouched
            final(self).slots@.len() >= old(self).slots@.len(),
            forall|j: int|
                0 <= j < old(self).slots@.len() && j != h.index ==> final(self).slots@[j]
                    == old(self).slots@[j],
            forall|g: Handle|
                old(self).valid(g) ==> final(self).valid(g) && final(self).at(g) == old(self).at(g),
    {
        let n: usize = self.slots.len();
        let mut i: usize = 0;
        while i < n
            invariant
                old(self).wf(),
                0 <= i <= n,
                n == self.slots@.len(),
                *self == *old(self),
                forall|j: int| 0 <= j < i ==> !usable(self.slots@[j]),
            decreases n - i,
        {
            let vacant: bool = self.slots[i].value.is_none();
            let g: u64 = self.slots[i].generation;
            if vacant && g < u64::MAX {
                let ghost old_slots = self.slots@;
                self.slots[i] = Slot { generation: g, value: Some(value) };
                proof {
                    lemma_occ_update(
                        old_slots,
                        0,
                        i as int,
                        Slot { generation: g, value: Some(value) },
                    );
                }
                return Handle { index: i, generation: g };
            }
            i = i + 1;
        }
        let ghost old_slots = self.slots@;
        self.slots.push(Slot { generation: 0, value: Some(value) });
        proof {
            lemma_occ_push(old_slots, 0, Slot { generation: 0u64, value: Some(value) });
        }
        Handle { index: n, generation: 0 }
    }

    /// Remove and return the value `h` refers to; a stale or vacant handle
    /// removes nothing. The slot's generation is bumped, so `h` and every
    /// older handle to this slot stay invalid forever after.
    pub fn remove(&mut self, h: Handle) -> (r: Option<T>)
        requires
            old(self).wf(),
        ensures
            final(self).wf(),
            r is Some <==> old(self).valid(h),
            r is None ==> *final(self) == *old(self),
            r is Some ==> r->0 == old(self).at(h) && final(self).slots@ == old(self).slots@.update(
                h.index as int,
                Slot { generation: (h.generation + 1) as u64, value: None::<T> },
            ) && occ(final(self).slots@) == occ(old(self).slots@) - 1,
            !final(self).valid(h),
            forall|g: Handle|
                old(self).valid(g) && g.index != h.index ==> final(self).valid(g) && final(self).at(g) == old(self).at(g),
    {
        if h.index >= self.slots.len() {
            return None;
        }
        let g: u64 = self.slots[h.index].generation;
        let occupied: bool = self.slots[h.index].value.is_some();
        if g != h.generation || !occupied {
            return None;
        }
        let ghost old_slots = self.slots@;
        let mut taken: Option<T> = None;
        let slot = &mut self.slots[h.index];
        core::mem::swap(&mut taken, &mut slot.value);
        slot.generation = g + 1;
        proof {
            lemma_occ_update(
                old_slots,
                0,
                h.index as int,
                Slot { generation: (g + 1) as u64, value: None::<T> },
            );
        }
        Some(taken.unwrap())
    }

    /// Read the value `h` refers to; stale or vacant handles yield nothing.
    pub fn get(&self, h: Handle) -> (r: Option<&T>)
        ensures
            r is Some <==> self.valid(h),
            r is Some ==> *r->0 == self.at(h),
    {
        if h.index < self.slots.len() {
            let slot = &self.slots[h.index];
            if slot.generation == h.generation {
                match &slot.value {
                    Some(v) => Some(v),
                    None => None,
                }
            } else {
                None
            }
        } else {
            None
        }
    }

    /// Mutable access to the value `h` refers to; stale or vacant handles
    /// yield nothing and leave the arena unchanged.
    pub fn get_mut(&mut self, h: Handle) -> (r: Option<&mut T>)
        requires
            old(self).wf(),
        ensures
            final(self).wf(),
            r is Some <==> old(self).valid(h),
            r is None ==> *final(self) == *old(self),
            r is Some ==> *r->0 == old(self).at(h) && final(self).slots@ == old(self).slots@.update(
                h.index as int,
                Slot { generation: h.generation, value: Some(*final(r->0)) },
            ),
    {
        if h.index < self.slots.len() {
            let g: u64 = self.slots[h.index].generation;
            let occupied: bool = self.slots[h.index].value.is_some();
            if g == h.generation && occupied {
                let ghost old_slots = self.slots@;
                proof {
                    lemma_occ_update_all(old_slots, h.index as int);
                }
                let slot = &mut self.slots[h.index];
                match &mut slot.value {
                    Some(v) => Some(v),
                    None => None,
                }
            } else {
                None
            }
        } else {
            None
        }
    }

    /// Mutable access to two distinct stored values at once. When both
    /// handles are valid and name different slots, both sides are populated;
    /// a request for the same slot twice populates only the first side, so
    /// no value is ever aliased.
    pub fn get2_mut(&mut self, h1: Handle, h2: Handle) -> (r: (Option<&mut T>, Option<&mut T>))
        requires
            old(self).wf(),
        ensures
            final(self).wf(),
            final(self).slots@.len() == old(self).slots@.len(),
            r.0 is Some <==> old(self).valid(h1),
            r.1 is Some <==> (old(self).valid(h2) && h1.index != h2.index),
            r.0 is Some ==> *r.0->0 == old(self).at(h1),
            r.1 is Some ==> *r.1->0 == old(self).at(h2),
            forall|j: int|
                0 <= j < old(self).slots@.len() ==> final(self).slots@[j] == (if r.0 is Some && j
                    == h1.index {
                    (Slot { generation: h1.generation, value: Some(*final(r.0.unwrap())) })
                } else if r.1 is Some && j == h2.index {
                    (Slot { generation: h2.generation, value: Some(*final(r.1.unwrap())) })
                } else {
                    old(self).slots@[j]
                }),
    {
        let valid1: bool = self.is_valid(h1);
        let valid2: bool = self.is_valid(h2);
        if h1.index == h2.index || !valid2 {
            let r0 = self.get_mut(h1);
            (r0, None)
        } else if !valid1 {
            let r1 = self.get_mut(h2);
            (None, r1)
        } else {
            let ghost old_slots = self.slots@;
            proof {
                lemma_occ_update_all(old_slots, h1.index as int);
            }
            let i1: usize = h1.index;
            let i2: usize = h2.index;
            let s: &mut [Slot<T>] = self.slots.as_mut_slice();
            let (sa, sb): (&mut Slot<T>, &mut Slot<T>) = if i1 < i2 {
                let (left, right) = s.split_at_mut(i2);
                let (_, l1) = left.split_at_mut(i1);
                let pa = l1.first_mut().unwrap();
                let pb = right.first_mut().unwrap();
                (pa, pb)
            } else {
                let (left, right) = s.split_at_mut(i1);
                let (_, l1) = left.split_at_mut(i2);
                let pb = l1.first_mut().unwrap();
                let pa = right.first_mut().unwrap();
                (pa, pb)
            };
            let va: Option<&mut T> = match &mut sa.value {
                Some(v) => Some(v),
                None => None,
            };
            let vb: Option<&mut T> = match &mut sb.value {
                Some(v) => Some(v),
                None => None,
            };
            (va, vb)
        }
    }

    /// Whether `h` currently refers to a stored value.
    pub fn is_valid(&self, h: Handle) -> (r: bool)
        ensures
            r == self.valid(h),
    {
        if h.index < self.slots.len() {
            let g: u64 = self.slots[h.index].generation;
            let occupied: bool = self.slots[h.index].value.is_some();
            g == h.generation && occupied
        } else {
            false
        }
    }

    /// Remove every stored value at once, bumping each occupied slot's
    /// generation so all outstanding handles go stale.
    pub fn clear(&mut self)
        requires
            old(self).wf(),
        ensures
            final(self).wf(),
            final(self).slots@.len() == old(self).slots@.len(),
            forall|i: int|
                0 <= i < old(self).slots@.len() ==> final(self).slots@[i] == (
                if old(self).slots@[i].value is Some {
                    (Slot {
                        generation: (old(self).slots@[i].generation + 1) as u64,
                        value: None::<T>,
                    })
                } else {
                    old(self).slots@[i]
                }),
            forall|g: Handle| !final(self).valid(g),
    {
        let n: usize = self.slots.len();
        let mut i: usize = 0;
        while i < n
            invariant
                old(self).wf(),
                0 <= i <= n,
                n == self.slots@.len(),
                n == old(self).slots@.len(),
                forall|j: int| i <= j < n ==> self.slots@[j] == old(self).slots@[j],
                forall|j: int|
                    0 <= j < i ==> self.slots@[j] == (if old(self).slots@[j].value is Some {
                        (Slot {
                            generation: (old(self).slots@[j].generation + 1) as u64,
                            value: None::<T>,
                        })
                    } else {
                        old(self).slots@[j]
                    }),
            decreases n - i,
        {
            let occupied: bool = self.slots[i].value.is_some();
            if occupied {
                let g: u64 = self.slots[i].generation;
                proof {
                    assert(self.slots@[i as int] == old(self).slots@[i as int]);
                    assert(old(self).slots@[i as int].value is Some);
                    assert(old(self).slots@[i as int].generation < u64::MAX);
                }
                self.slots[i] = Slot { generation: g + 1, value: None };
            }
            i = i + 1;
        }
    }

    /// The handles of the stored values, in slot order.
    pub fn handles(&self) -> (r: Vec<Handle>)
        ensures
            r@ == handles_upto(self.slots@, self.slots@.len() as int),
    {
        let n: usize = self.slots.len();
        let mut r: Vec<Handle> = Vec::new();
        let mut i: usize = 0;
        while i < n
            invariant
                0 <= i <= n,
                n == self.slots@.len(),
                r@ == handles_upto(self.slots@, i as int),
            decreases n - i,
        {
            let occupied: bool = self.slots[i].value.is_some();
            if occupied {
                let g: u64 = self.slots[i].generation;
                r.push(Handle { index: i, generation: g });
            }
            i = i + 1;
        }
        r
    }
}

/// The handles of the values stored in the first `i` slots, in slot order.
pub open spec fn handles_upto<T>(s: Seq<Slot<T>>, i: int) -> Seq<Handle>
    decreases i,
{
    if i <= 0 {
        Seq::empty()
    } else {
        handles_upto(s, i - 1) + if s[i - 1].value is Some {
            seq![Handle { index: (i - 1) as usize, generation: s[i - 1].generation }]
        } else {
            Seq::empty()
        }
    }
}

} // verus!
