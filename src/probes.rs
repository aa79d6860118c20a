use vstd::prelude::*;

verus! {

/// A ring of per-frame probe records, one slot per frame of the counter's
/// period. Slots are never cleared: one not yet written in this cycle holds
/// the pose of an earlier cycle.
pub struct ProbeRing<P> {
    slots: Vec<P>,
}

impl<P: Copy> ProbeRing<P> {
    pub closed spec fn poses(&self) -> Seq<P> {
        self.slots@
    }

    pub fn new(len: usize, blank: P) -> (r: Self)
        ensures
            r.poses() == Seq::new(len as nat, |i: int| blank),
    {
        let mut slots: Vec<P> = Vec::new();
        let mut k: usize = 0;
        while k < len
            invariant
                k <= len,
                slots@ == Seq::new(k as nat, |i: int| blank),
            decreases len - k,
        {
            slots.push(blank);
            k = k + 1;
            assert(slots@ =~= Seq::new(k as nat, |i: int| blank));
        }
        ProbeRing { slots }
    }

    pub fn len(&self) -> (r: usize)
        ensures
            r == self.poses().len(),
    {
        self.slots.len()
    }

    pub fn pose(&self, i: usize) -> (r: P)
        requires
            i < self.poses().len(),
        ensures
            r == self.poses()[i as int],
    {
        self.slots[i]
    }

    /// Writes the pose of frame slot `i`; every other slot is kept.
    pub fn write(&mut self, i: usize, pose: P)
        requires
            i < old(self).poses().len(),
        ensures
            final(self).poses() == old(self).poses().update(i as int, pose),
    {
        self.slots.set(i, pose);
    }
}

} // verus!
