//! The node store: stable slots addressed by strong and weak handles.
//!
//! A slot is claimed by [`Storage::create`], kept while strong references to
//! it are counted, and handed back for reuse by [`Storage::sweep`] once the
//! count is zero. Every reclamation advances the slot's epoch, so a handle
//! taken before it no longer matches.

use vstd::prelude::*;

verus! {

/// A strong handle: it stands for one counted reference to a slot.
///
/// It is neither `Clone` nor `Copy`: another strong handle to the same slot
/// comes from [`Storage::retain`] or [`Storage::upgrade`], which count it, and
/// a handle is given up through [`Storage::release`].
#[derive(Debug, PartialEq, Eq)]
pub struct NodePointer {
    index: usize,
    epoch: u64,
}

/// A weak handle: it names a slot and an epoch and keeps nothing alive.
#[derive(Clone, Copy, Debug, PartialEq, Eq)]
pub struct WeakPointer {
    index: usize,
    epoch: u64,
}

/// One slot of a [`Storage`].
pub struct Slot<T> {
    /// What the slot holds. It stays in place after the slot is reclaimed,
    /// until the slot is claimed again.
    pub value: T,
    /// The number of strong references counted for the slot.
    pub count: u64,
    /// How many times the slot has been reclaimed.
    pub epoch: u64,
    /// Whether the slot is claimed.
    pub live: bool,
}

/// Slots in a row, with the list of those that can be claimed again.
pub struct Storage<T> {
    slots: Vec<Slot<T>>,
    free: Vec<usize>,
}

impl NodePointer {
    /// The slot that the handle names.
    pub closed spec fn slot(&self) -> int {
        self.index as int
    }

    /// The epoch of the slot when the handle was made.
    pub closed spec fn epoch(&self) -> u64 {
        self.epoch
    }

    /// The slot that the handle names.
    pub fn index(&self) -> (i: usize)
        ensures
            i == self.slot(),
    {
        self.index
    }

    /// Whether two handles name the same slot at the same epoch.
    pub fn same(&self, other: &NodePointer) -> (r: bool)
        ensures
            r == (self.slot() == other.slot() && self.epoch() == other.epoch()),
            r == (*self == *other),
    {
        self.index == other.index && self.epoch == other.epoch
    }

    /// The weak handle to the same slot at the same epoch.
    pub closed spec fn weak(&self) -> WeakPointer {
        WeakPointer { index: self.index, epoch: self.epoch }
    }

    /// The weak handle names what the strong one names.
    pub broadcast proof fn lemma_weak(self)
        ensures
            (#[trigger] self.weak()).slot() == self.slot(),
            self.weak().epoch() == self.epoch(),
    {
    }

    /// A weak handle to the same slot.
    pub fn downgrade(&self) -> (w: WeakPointer)
        ensures
            w == self.weak(),
            w.slot() == self.slot(),
            w.epoch() == self.epoch(),
    {
        WeakPointer { index: self.index, epoch: self.epoch }
    }

    /// A second value of the same handle, not counted: for links that the
    /// crate keeps inside the store.
    pub(crate) fn alias(&self) -> (p: NodePointer)
        ensures
            p == *self,
    {
        NodePointer { index: self.index, epoch: self.epoch }
    }
}

impl WeakPointer {
    /// The slot that the handle names.
    pub closed spec fn slot(&self) -> int {
        self.index as int
    }

    /// The epoch of the slot when the handle was made.
    pub closed spec fn epoch(&self) -> u64 {
        self.epoch
    }

    /// The slot that the handle names.
    pub fn index(&self) -> (i: usize)
        ensures
            i == self.slot(),
    {
        self.index
    }

    /// Whether two handles name the same slot at the same epoch.
    pub fn same(&self, other: &WeakPointer) -> (r: bool)
        ensures
            r == (self.slot() == other.slot() && self.epoch() == other.epoch()),
            r == (*self == *other),
    {
        self.index == other.index && self.epoch == other.epoch
    }
}

/// Whether `slots` has a claimed slot `slot` at epoch `epoch`.
pub open spec fn holds<T>(slots: Seq<Slot<T>>, slot: int, epoch: u64) -> bool {
    0 <= slot < slots.len() && slots[slot].live && slots[slot].epoch == epoch
}

/// The count after one more reference: it stays at the largest value once
/// there.
pub open spec fn count_up(count: u64) -> u64 {
    if count < u64::MAX {
        (count + 1) as u64
    } else {
        count
    }
}

/// The count after one reference less: zero and the largest value stay.
pub open spec fn count_down(count: u64) -> u64 {
    if 0 < count < u64::MAX {
        (count - 1) as u64
    } else {
        count
    }
}

/// Whether a sweep reclaims the slot: it is claimed and nothing refers to it.
pub open spec fn unreferenced<T>(slot: Slot<T>) -> bool {
    slot.live && slot.count == 0
}

/// A slot after a sweep.
pub open spec fn swept_slot<T>(slot: Slot<T>) -> Slot<T> {
    if unreferenced(slot) {
        Slot {
            value: slot.value,
            count: 0,
            epoch: if slot.epoch < u64::MAX {
                (slot.epoch + 1) as u64
            } else {
                slot.epoch
            },
            live: false,
        }
    } else {
        slot
    }
}

/// All slots after a sweep.
pub open spec fn swept<T>(slots: Seq<Slot<T>>) -> Seq<Slot<T>> {
    Seq::new(slots.len(), |i: int| swept_slot(slots[i]))
}

/// The slots among the first `n` that a sweep hands back for reuse, in
/// rising order. A slot whose epoch cannot advance is reclaimed but never
/// reused.
pub open spec fn reclaimed<T>(slots: Seq<Slot<T>>, n: nat) -> Seq<usize>
    decreases n,
{
    if n == 0 || n > slots.len() {
        Seq::empty()
    } else {
        let before = reclaimed(slots, (n - 1) as nat);
        if unreferenced(slots[n - 1]) && slots[n - 1].epoch < u64::MAX {
            before.push((n - 1) as usize)
        } else {
            before
        }
    }
}

impl<T> View for Storage<T> {
    type V = Seq<Slot<T>>;

    closed spec fn view(&self) -> Seq<Slot<T>> {
        self.slots@
    }
}

impl<T> Storage<T> {
    /// The slots that can be claimed again; the last one is claimed first.
    pub closed spec fn vacant(&self) -> Seq<usize> {
        self.free@
    }

    /// The invariant: a vacant slot exists and is unclaimed, and none is
    /// listed twice.
    pub open spec fn wf(&self) -> bool {
        &&& forall|k: int|
            0 <= k < self.vacant().len() ==> (#[trigger] self.vacant()[k]) < self@.len()
                && !self@[self.vacant()[k] as int].live
        &&& forall|j: int, k: int|
            0 <= j < k < self.vacant().len() ==> self.vacant()[j] != self.vacant()[k]
    }

    /// The slot that the next [`Storage::create`] claims.
    pub open spec fn next_slot(&self) -> int {
        if self.vacant().len() > 0 {
            self.vacant().last() as int
        } else {
            self@.len() as int
        }
    }

    /// Whether the strong handle names a claimed slot at its epoch.
    pub open spec fn contains(&self, pointer: &NodePointer) -> bool {
        holds(self@, pointer.slot(), pointer.epoch())
    }

    /// Whether the weak handle still names a claimed slot at its epoch.
    pub open spec fn is_current(&self, weak: &WeakPointer) -> bool {
        holds(self@, weak.slot(), weak.epoch())
    }

    /// An empty store.
    pub fn new() -> (s: Storage<T>)
        ensures
            s@.len() == 0,
            s.vacant().len() == 0,
            s.wf(),
    {
        Storage { slots: Vec::new(), free: Vec::new() }
    }

    /// The number of slots, claimed or not.
    pub fn len(&self) -> (n: usize)
        ensures
            n == self@.len(),
    {
        self.slots.len()
    }

    /// Claims a slot for `value` with one reference counted, and returns the
    /// strong handle that stands for it. The last slot handed back by a sweep
    /// is taken; where there is none, a new slot is added at the end.
    pub fn create(&mut self, value: T) -> (pointer: NodePointer)
        requires
            old(self).wf(),
        ensures
            final(self).wf(),
            pointer.slot() == old(self).next_slot(),
            final(self).contains(&pointer),
            old(self).vacant().len() > 0 ==> final(self).vacant() == old(self).vacant().drop_last()
                && final(self)@ == old(self)@.update(
                pointer.slot(),
                Slot { value, count: 1, epoch: old(self)@[pointer.slot()].epoch, live: true },
            ),
            old(self).vacant().len() == 0 ==> final(self).vacant() == old(self).vacant()
                && final(self)@ == old(self)@.push(Slot { value, count: 1, epoch: 0, live: true }),
    {
        match self.free.pop() {
            Some(index) => {
                let epoch = self.slots[index].epoch;
                self.slots[index] = Slot { value, count: 1, epoch, live: true };
                NodePointer { index, epoch }
            },
            None => {
                let index = self.slots.len();
                self.slots.push(Slot { value, count: 1, epoch: 0, live: true });
                NodePointer { index, epoch: 0 }
            },
        }
    }

    /// Whether slot `index` exists and is claimed.
    pub fn is_live(&self, index: usize) -> (r: bool)
        ensures
            r == (index < self@.len() && self@[index as int].live),
    {
        index < self.slots.len() && self.slots[index].live
    }

    /// The first claimed slot at or after `from`, in the order in which the
    /// slots stand: the cursor over what is alive.
    pub fn next_live(&self, from: usize) -> (r: Option<usize>)
        ensures
            match r {
                Some(i) => from <= i < self@.len() && self@[i as int].live && forall|j: int|
                    from <= j < i ==> !self@[j].live,
                None => forall|j: int| from <= j < self@.len() ==> !self@[j].live,
            },
    {
        let mut i: usize = from;
        while i < self.slots.len()
            invariant
                from <= i,
                forall|j: int| from <= j < i && j < self@.len() ==> !self@[j].live,
            decreases self.slots.len() - i,
        {
            if self.slots[i].live {
                return Some(i);
            }
            i = i + 1;
        }
        None
    }

    /// Whether the strong handle names a claimed slot at its epoch.
    pub fn has(&self, pointer: &NodePointer) -> (r: bool)
        ensures
            r == self.contains(pointer),
    {
        pointer.index < self.slots.len() && self.slots[pointer.index].live
            && self.slots[pointer.index].epoch == pointer.epoch
    }

    /// Whether the weak handle still names a claimed slot at its epoch.
    pub fn has_weak(&self, weak: &WeakPointer) -> (r: bool)
        ensures
            r == self.is_current(weak),
    {
        weak.index < self.slots.len() && self.slots[weak.index].live && self.slots[weak.index].epoch
            == weak.epoch
    }

    /// Slot `index` as it stands.
    pub fn slot(&self, index: usize) -> (s: &Slot<T>)
        requires
            index < self@.len(),
        ensures
            *s == self@[index as int],
    {
        &self.slots[index]
    }

    /// What slot `index` holds, to be changed in place.
    pub fn value_mut(&mut self, index: usize) -> (value: &mut T)
        requires
            index < old(self)@.len(),
        ensures
            *value == old(self)@[index as int].value,
            final(self)@ == old(self)@.update(
                index as int,
                Slot { value: *final(value), ..old(self)@[index as int] },
            ),
            final(self).vacant() == old(self).vacant(),
    {
        &mut self.slots[index].value
    }

    /// What the handle's slot holds.
    pub fn get(&self, pointer: &NodePointer) -> (value: &T)
        requires
            self.contains(pointer),
        ensures
            *value == self@[pointer.slot()].value,
    {
        &self.slots[pointer.index].value
    }

    /// What the handle's slot holds, to be changed in place.
    pub fn get_mut(&mut self, pointer: &NodePointer) -> (value: &mut T)
        requires
            old(self).contains(pointer),
        ensures
            *value == old(self)@[pointer.slot()].value,
            final(self)@ == old(self)@.update(
                pointer.slot(),
                Slot { value: *final(value), ..old(self)@[pointer.slot()] },
            ),
            final(self).vacant() == old(self).vacant(),
    {
        &mut self.slots[pointer.index].value
    }

    /// A weak handle to slot `index` at its present epoch, or `None` where
    /// the slot is not claimed.
    pub fn weak_at(&self, index: usize) -> (r: Option<WeakPointer>)
        ensures
            match r {
                Some(w) => w.slot() == index && self.is_current(&w),
                None => !(index < self@.len() && self@[index as int].live),
            },
    {
        if index < self.slots.len() && self.slots[index].live {
            Some(WeakPointer { index, epoch: self.slots[index].epoch })
        } else {
            None
        }
    }

    /// Counts one more reference to the handle's slot and returns the handle
    /// that stands for it. Where the handle names no claimed slot, nothing is
    /// counted.
    pub fn retain(&mut self, pointer: &NodePointer) -> (copy: NodePointer)
        ensures
            copy == *pointer,
            final(self).vacant() == old(self).vacant(),
            old(self).contains(pointer) ==> final(self)@ == old(self)@.update(
                pointer.slot(),
                Slot {
                    count: count_up(old(self)@[pointer.slot()].count),
                    ..old(self)@[pointer.slot()]
                },
            ),
            !old(self).contains(pointer) ==> final(self)@ == old(self)@,
    {
        if self.has(pointer) {
            let count = self.slots[pointer.index].count;
            if count < u64::MAX {
                self.slots[pointer.index].count = count + 1;
            }
        }
        pointer.alias()
    }

    /// Gives up the reference that the handle stands for. The slot stays
    /// claimed until the next sweep. Where the handle names no claimed slot,
    /// nothing changes.
    pub fn release(&mut self, pointer: NodePointer)
        ensures
            final(self).vacant() == old(self).vacant(),
            old(self).contains(&pointer) ==> final(self)@ == old(self)@.update(
                pointer.slot(),
                Slot {
                    count: count_down(old(self)@[pointer.slot()].count),
                    ..old(self)@[pointer.slot()]
                },
            ),
            !old(self).contains(&pointer) ==> final(self)@ == old(self)@,
    {
        if self.has(&pointer) {
            let count = self.slots[pointer.index].count;
            if 0 < count && count < u64::MAX {
                self.slots[pointer.index].count = count - 1;
            }
        }
    }

    /// Turns a weak handle into a strong one, counting the new reference, or
    /// returns `None` where the slot has been reclaimed since the handle was
    /// made.
    pub fn upgrade(&mut self, weak: &WeakPointer) -> (r: Option<NodePointer>)
        ensures
            final(self).vacant() == old(self).vacant(),
            r is Some <==> old(self).is_current(weak),
            match r {
                Some(pointer) => pointer.slot() == weak.slot() && pointer.epoch() == weak.epoch()
                    && final(self)@ == old(self)@.update(
                    weak.slot(),
                    Slot { count: count_up(old(self)@[weak.slot()].count), ..old(self)@[weak.slot()] },
                ),
                None => final(self)@ == old(self)@,
            },
    {
        if self.has_weak(weak) {
            let count = self.slots[weak.index].count;
            if count < u64::MAX {
                self.slots[weak.index].count = count + 1;
            }
            Some(NodePointer { index: weak.index, epoch: weak.epoch })
        } else {
            None
        }
    }

    /// Reclaims every claimed slot to which no reference is counted: the slot
    /// is no longer alive, its epoch advances, and it is handed back for
    /// reuse. Slots with a reference are untouched, so no live handle is
    /// invalidated.
    pub fn sweep(&mut self)
        requires
            old(self).wf(),
        ensures
            final(self).wf(),
            final(self)@ == swept(old(self)@),
            final(self).vacant() == old(self).vacant() + reclaimed(old(self)@, old(self)@.len()),
    {
        let mut i: usize = 0;
        while i < self.slots.len()
            invariant
                i <= self@.len(),
                self@.len() == old(self)@.len(),
                self.wf(),
                forall|j: int| 0 <= j < i ==> self@[j] == swept_slot(old(self)@[j]),
                forall|j: int| i <= j < self@.len() ==> self@[j] == old(self)@[j],
                self.vacant() == old(self).vacant() + reclaimed(old(self)@, i as nat),
                forall|k: int|
                    old(self).vacant().len() <= k < self.vacant().len() ==> (
                    #[trigger] self.vacant()[k]) < i,
                forall|k: int|
                    0 <= k < old(self).vacant().len() ==> !old(self)@[(
                    #[trigger] old(self).vacant()[k]) as int].live,
            decreases self.slots.len() - i,
        {
            if self.slots[i].live && self.slots[i].count == 0 {
                self.slots[i].live = false;
                if self.slots[i].epoch < u64::MAX {
                    self.slots[i].epoch = self.slots[i].epoch + 1;
                    self.free.push(i);
                }
            }
            i = i + 1;
        }
    }
}

} // verus!
