use vstd::prelude::*;

verus! {

/// The number of frames after which the probe counter comes back to zero.
pub open spec fn probe_period(tile: nat) -> nat {
    tile * tile
}

/// The counter value `n` frames after `start`, advancing by one and wrapping
/// at `period`.
pub open spec fn counter_after(period: nat, start: nat, n: nat) -> nat
    decreases n,
{
    if n == 0 {
        start
    } else {
        (counter_after(period, start, (n - 1) as nat) + 1) % period
    }
}

/// The counter value that follows `counter` for probe tiles of side `tile`.
pub fn next_frame(counter: u32, tile: u32) -> (r: u32)
    requires
        tile > 0,
        tile * tile <= u32::MAX,
        counter < tile * tile,
    ensures
        r == (counter as nat + 1) % probe_period(tile as nat),
        r < probe_period(tile as nat),
{
    let p: u32 = tile * tile;
    (counter + 1) % p
}

/// Probe atlas columns and rows: how many whole tiles fit across and down.
pub fn atlas_dims(width: u32, height: u32, tile: u32) -> (r: (u32, u32))
    requires
        tile > 0,
    ensures
        r.0 == width / tile,
        r.1 == height / tile,
{
    (width / tile, height / tile)
}

/// Starting from zero, the frame counter reads `n mod tile²` after `n` frames:
/// it never skips a value, stays below `tile²`, and comes back to zero exactly
/// every `tile²` frames.
pub proof fn lemma_frame_sequence(tile: nat, n: nat)
    requires
        tile > 0,
    ensures
        counter_after(probe_period(tile), 0, n) == n % probe_period(tile),
        counter_after(probe_period(tile), 0, n) < probe_period(tile),
        (counter_after(probe_period(tile), 0, n) == 0) == (n % probe_period(tile) == 0),
    decreases n,
{
    let p = probe_period(tile);
    assert(p > 0) by (nonlinear_arith)
        requires
            tile > 0,
            p == tile * tile,
    ;
    if n > 0 {
        lemma_frame_sequence(tile, (n - 1) as nat);
        let m = (n - 1) as nat;
        assert(((m % p) + 1) % p == (m + 1) % p) by {
            vstd::arithmetic::div_mod::lemma_add_mod_noop(m as int, 1, p as int);
            if p == 1 {
                assert((m % 1) == 0 && ((m % 1) + 1) % 1 == 0 && (m + 1) % 1 == 0);
            } else {
                vstd::arithmetic::div_mod::lemma_small_mod(1, p);
            }
        }
    }
}

/// The frame counter of the probe atlas, wrapping at `tile²`.
pub struct FrameCounter {
    value: u32,
    tile: u32,
}

impl FrameCounter {
    pub closed spec fn value_spec(&self) -> nat {
        self.value as nat
    }

    pub closed spec fn tile_spec(&self) -> nat {
        self.tile as nat
    }

    pub open spec fn period(&self) -> nat {
        probe_period(self.tile_spec())
    }

    pub open spec fn wf(&self) -> bool {
        &&& self.tile_spec() > 0
        &&& self.period() <= u32::MAX
        &&& self.value_spec() < self.period()
    }

    pub fn new(tile: u32) -> (r: Self)
        requires
            tile > 0,
            tile * tile <= u32::MAX,
        ensures
            r.wf(),
            r.value_spec() == 0,
            r.tile_spec() == tile,
    {
        assert(0 < tile * tile) by (nonlinear_arith)
            requires
                tile > 0,
        ;
        FrameCounter { value: 0, tile }
    }

    pub fn value(&self) -> (r: u32)
        ensures
            r == self.value_spec(),
    {
        self.value
    }

    pub fn tile_size(&self) -> (r: u32)
        ensures
            r == self.tile_spec(),
    {
        self.tile
    }

    /// Moves to the next frame.
    pub fn advance(&mut self)
        requires
            old(self).wf(),
        ensures
            final(self).wf(),
            final(self).tile_spec() == old(self).tile_spec(),
            final(self).value_spec() == (old(self).value_spec() + 1) % old(self).period(),
    {
        self.value = next_frame(self.value, self.tile);
    }
}

} // verus!
