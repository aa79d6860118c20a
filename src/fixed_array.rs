use vstd::prelude::*;

verus! {

/// A scene entity as handed to the encoder: its record and its visibility flag.
#[derive(Clone, Copy)]
pub struct Entry<T> {
    pub item: T,
    pub visible: bool,
}

/// The records of the visible entries, in order.
pub open spec fn eligible<T>(s: Seq<Entry<T>>) -> Seq<T>
    decreases s.len(),
{
    if s.len() == 0 {
        Seq::empty()
    } else {
        let rest = eligible(s.drop_last());
        if s.last().visible {
            rest.push(s.last().item)
        } else {
            rest
        }
    }
}

/// At most the first `cap` elements of `s`.
pub open spec fn take_up_to<T>(s: Seq<T>, cap: nat) -> Seq<T> {
    if s.len() <= cap {
        s
    } else {
        s.take(cap as int)
    }
}

/// `slots` with its first `e.len()` elements replaced by `e`.
pub open spec fn overwrite_prefix<T>(slots: Seq<T>, e: Seq<T>) -> Seq<T> {
    Seq::new(slots.len(), |j: int| if j < e.len() { e[j] } else { slots[j] })
}

proof fn lemma_eligible_step<T>(s: Seq<Entry<T>>, i: int)
    requires
        0 <= i < s.len(),
    ensures
        eligible(s.take(i + 1)) == (if s[i].visible {
            eligible(s.take(i)).push(s[i].item)
        } else {
            eligible(s.take(i))
        }),
{
    assert(s.take(i + 1).drop_last() =~= s.take(i));
}

/// A fixed-capacity array of records with an explicit count of the ones in use.
///
/// The storage never grows nor shrinks; slots past the count keep whatever
/// they held before.
pub struct FixedArray<T> {
    data: Vec<T>,
    count: usize,
}

impl<T: Copy> FixedArray<T> {
    /// Every slot of the storage, used or not.
    pub closed spec fn slots(&self) -> Seq<T> {
        self.data@
    }

    /// The number of slots in use.
    pub closed spec fn used(&self) -> nat {
        self.count as nat
    }

    pub open spec fn cap(&self) -> nat {
        self.slots().len()
    }

    /// The records in use.
    pub open spec fn items(&self) -> Seq<T> {
        self.slots().take(self.used() as int)
    }

    pub open spec fn wf(&self) -> bool {
        self.used() <= self.cap()
    }

    pub fn new(capacity: usize, blank: T) -> (r: Self)
        ensures
            r.wf(),
            r.used() == 0,
            r.slots() == Seq::new(capacity as nat, |i: int| blank),
    {
        let mut data: Vec<T> = Vec::new();
        let mut k: usize = 0;
        while k < capacity
            invariant
                k <= capacity,
                data@ == Seq::new(k as nat, |i: int| blank),
            decreases capacity - k,
        {
            data.push(blank);
            k = k + 1;
            assert(data@ =~= Seq::new(k as nat, |i: int| blank));
        }
        FixedArray { data, count: 0 }
    }

    pub fn count(&self) -> (r: usize)
        ensures
            r == self.used(),
    {
        self.count
    }

    pub fn capacity(&self) -> (r: usize)
        ensures
            r == self.cap(),
    {
        self.data.len()
    }

    /// The record in slot `i`, which may be past the count.
    pub fn slot(&self, i: usize) -> (r: T)
        requires
            i < self.cap(),
        ensures
            r == self.slots()[i as int],
    {
        self.data[i]
    }

    /// Marks every slot unused; the storage is left as it is.
    pub fn clear(&mut self)
        requires
            old(self).wf(),
        ensures
            final(self).wf(),
            final(self).used() == 0,
            final(self).slots() == old(self).slots(),
    {
        self.count = 0;
    }

    /// Stores `x` in the next free slot; when the array is full nothing changes.
    pub fn push_within_capacity(&mut self, x: T) -> (stored: bool)
        requires
            old(self).wf(),
        ensures
            final(self).wf(),
            stored == (old(self).used() < old(self).cap()),
            stored ==> final(self).used() == old(self).used() + 1 && final(self).slots()
                == old(self).slots().update(old(self).used() as int, x),
            !stored ==> *final(self) == *old(self),
    {
        if self.count < self.data.len() {
            self.data.set(self.count, x);
            self.count = self.count + 1;
            true
        } else {
            false
        }
    }

    /// Replaces the records in use by the visible entries, in order, up to
    /// the capacity. Returns how many visible entries did not fit.
    pub fn fill_visible(&mut self, entries: &Vec<Entry<T>>) -> (dropped: usize)
        requires
            old(self).wf(),
        ensures
            final(self).wf(),
            final(self).used() == take_up_to(eligible(entries@), old(self).cap()).len(),
            final(self).slots() == overwrite_prefix(
                old(self).slots(),
                take_up_to(eligible(entries@), old(self).cap()),
            ),
            dropped == eligible(entries@).len() - final(self).used(),
    {
        let ghost start = self.data@;
        let ghost cap = self.data@.len();
        self.count = 0;
        let mut dropped: usize = 0;
        let mut i: usize = 0;
        while i < entries.len()
            invariant
                i <= entries.len(),
                self.wf(),
                self.data@.len() == cap,
                cap == start.len(),
                self.count == take_up_to(eligible(entries@.take(i as int)), cap).len(),
                self.data@ == overwrite_prefix(start, take_up_to(eligible(entries@.take(i as int)), cap)),
                dropped as nat + self.count as nat == eligible(entries@.take(i as int)).len(),
                eligible(entries@.take(i as int)).len() <= i,
            decreases entries.len() - i,
        {
            proof {
                lemma_eligible_step(entries@, i as int);
            }
            let e = entries[i];
            if e.visible {
                if self.push_within_capacity(e.item) {
                    assert(self.data@ =~= overwrite_prefix(
                        start,
                        take_up_to(eligible(entries@.take(i + 1)), cap),
                    ));
                } else {
                    dropped = dropped + 1;
                    assert(take_up_to(eligible(entries@.take(i + 1)), cap) =~= take_up_to(
                        eligible(entries@.take(i as int)),
                        cap,
                    ));
                }
            }
            i = i + 1;
        }
        assert(entries@.take(entries@.len() as int) =~= entries@);
        dropped
    }

    /// Replaces the records in use by `items`, in order, up to the capacity.
    /// Returns how many items did not fit.
    pub fn fill_all(&mut self, items: &Vec<T>) -> (dropped: usize)
        requires
            old(self).wf(),
        ensures
            final(self).wf(),
            final(self).used() == take_up_to(items@, old(self).cap()).len(),
            final(self).slots() == overwrite_prefix(old(self).slots(), take_up_to(items@, old(self).cap())),
            dropped == items@.len() - final(self).used(),
    {
        let ghost start = self.data@;
        let ghost cap = self.data@.len();
        self.count = 0;
        let mut dropped: usize = 0;
        let mut i: usize = 0;
        while i < items.len()
            invariant
                i <= items.len(),
                self.wf(),
                self.data@.len() == cap,
                cap == start.len(),
                self.count == take_up_to(items@.take(i as int), cap).len(),
                self.data@ == overwrite_prefix(start, take_up_to(items@.take(i as int), cap)),
                dropped as nat + self.count as nat == i,
            decreases items.len() - i,
        {
            if self.push_within_capacity(items[i]) {
                assert(self.data@ =~= overwrite_prefix(start, take_up_to(items@.take(i + 1), cap)));
            } else {
                dropped = dropped + 1;
                assert(take_up_to(items@.take(i + 1), cap) =~= take_up_to(items@.take(i as int), cap));
            }
            i = i + 1;
        }
        assert(items@.take(items@.len() as int) =~= items@);
        dropped
    }
}

} // verus!
