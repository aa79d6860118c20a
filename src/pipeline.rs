use vstd::prelude::*;

use crate::fixed_array::{Entry, FixedArray, eligible, overwrite_prefix, take_up_to};
use crate::frame::{FrameCounter, atlas_dims};
use crate::probes::ProbeRing;

verus! {

/// What a fixed-capacity array holds after it is refilled with `records`:
/// the first records up to the capacity, the slots past them unchanged.
pub open spec fn encoded<T>(slots: Seq<T>, records: Seq<T>) -> Seq<T> {
    overwrite_prefix(slots, take_up_to(records, slots.len()))
}

/// The pose stored for a frame: the camera's, or the origin when there is no
/// camera.
pub open spec fn frame_pose<P>(camera_pose: Option<P>, origin: P) -> P {
    match camera_pose {
        Some(p) => p,
        None => origin,
    }
}

/// The integer part of the light-pass parameters of one frame.
#[derive(Clone, Copy, Debug, PartialEq, Eq, Structural)]
pub struct LightPassGrid {
    pub frame_counter: u32,
    pub probe_size: u32,
    pub probe_atlas_cols: u32,
    pub probe_atlas_rows: u32,
}

/// What happened while a frame was encoded.
#[derive(Clone, Copy, Debug, PartialEq, Eq, Structural)]
pub struct FrameReport {
    /// False when no primary camera was given and the origin was stored.
    pub camera_found: bool,
    /// Visible lights that did not fit in the light array.
    pub dropped_lights: usize,
    /// Visible occluders that did not fit in the occluder array.
    pub dropped_occluders: usize,
    /// Skylight masks that did not fit in the mask array.
    pub dropped_masks: usize,
}

/// One of the buffers published to the device each frame.
#[derive(Clone, Copy, Debug, PartialEq, Eq, Structural)]
pub enum GpuBuffer {
    LightSources,
    LightOccluders,
    CameraParams,
    LightPassParams,
    Probes,
    SkylightMasks,
}

/// The fixed order in which the buffers are uploaded once a frame is encoded.
pub open spec fn upload_sequence() -> Seq<GpuBuffer> {
    seq![
        GpuBuffer::LightSources,
        GpuBuffer::LightOccluders,
        GpuBuffer::CameraParams,
        GpuBuffer::LightPassParams,
        GpuBuffer::Probes,
        GpuBuffer::SkylightMasks,
    ]
}

/// The buffers in upload order, each once.
pub fn upload_order() -> (r: Vec<GpuBuffer>)
    ensures
        r@ == upload_sequence(),
{
    let mut r: Vec<GpuBuffer> = Vec::new();
    r.push(GpuBuffer::LightSources);
    r.push(GpuBuffer::LightOccluders);
    r.push(GpuBuffer::CameraParams);
    r.push(GpuBuffer::LightPassParams);
    r.push(GpuBuffer::Probes);
    r.push(GpuBuffer::SkylightMasks);
    assert(r@ =~= upload_sequence());
    r
}

/// The buffers handed to the illumination pass, and the frame counter that
/// addresses the probe ring. `L`, `O`, `M` and `P` are the records of a
/// light, an occluder, a skylight mask and a camera pose.
pub struct PipelineAssets<L, O, M, P> {
    light_sources: FixedArray<L>,
    light_occluders: FixedArray<O>,
    skylight_masks: FixedArray<M>,
    probes: ProbeRing<P>,
    counter: FrameCounter,
    grid: LightPassGrid,
}

impl<L: Copy, O: Copy, M: Copy, P: Copy> PipelineAssets<L, O, M, P> {
    pub closed spec fn lights_spec(&self) -> FixedArray<L> {
        self.light_sources
    }

    pub closed spec fn occluders_spec(&self) -> FixedArray<O> {
        self.light_occluders
    }

    pub closed spec fn masks_spec(&self) -> FixedArray<M> {
        self.skylight_masks
    }

    pub closed spec fn probes_spec(&self) -> ProbeRing<P> {
        self.probes
    }

    pub closed spec fn counter_spec(&self) -> FrameCounter {
        self.counter
    }

    pub closed spec fn grid_spec(&self) -> LightPassGrid {
        self.grid
    }

    pub closed spec fn wf(&self) -> bool {
        &&& self.light_sources.wf()
        &&& self.light_occluders.wf()
        &&& self.skylight_masks.wf()
        &&& self.counter.wf()
        &&& self.probes.poses().len() == self.counter.period()
    }

    /// Empty arrays of the given capacities, every slot holding the given
    /// blank record, a probe ring of `tile²` slots and the counter at zero.
    pub fn new(
        light_capacity: usize,
        occluder_capacity: usize,
        mask_capacity: usize,
        tile: u32,
        blank_light: L,
        blank_occluder: O,
        blank_mask: M,
        blank_pose: P,
    ) -> (r: Self)
        requires
            tile > 0,
            tile * tile <= u32::MAX,
        ensures
            r.wf(),
            r.lights_spec().used() == 0,
            r.lights_spec().slots() == Seq::new(light_capacity as nat, |i: int| blank_light),
            r.occluders_spec().used() == 0,
            r.occluders_spec().slots() == Seq::new(occluder_capacity as nat, |i: int| blank_occluder),
            r.masks_spec().used() == 0,
            r.masks_spec().slots() == Seq::new(mask_capacity as nat, |i: int| blank_mask),
            r.probes_spec().poses() == Seq::new((tile * tile) as nat, |i: int| blank_pose),
            r.counter_spec().value_spec() == 0,
            r.counter_spec().tile_spec() == tile,
            r.grid_spec() == (LightPassGrid {
                frame_counter: 0,
                probe_size: tile,
                probe_atlas_cols: 0,
                probe_atlas_rows: 0,
            }),
    {
        let period: u32 = tile * tile;
        PipelineAssets {
            light_sources: FixedArray::new(light_capacity, blank_light),
            light_occluders: FixedArray::new(occluder_capacity, blank_occluder),
            skylight_masks: FixedArray::new(mask_capacity, blank_mask),
            probes: ProbeRing::new(period as usize, blank_pose),
            counter: FrameCounter::new(tile),
            grid: LightPassGrid {
                frame_counter: 0,
                probe_size: tile,
                probe_atlas_cols: 0,
                probe_atlas_rows: 0,
            },
        }
    }

    pub fn light_sources(&self) -> (r: &FixedArray<L>)
        ensures
            *r == self.lights_spec(),
    {
        &self.light_sources
    }

    pub fn light_occluders(&self) -> (r: &FixedArray<O>)
        ensures
            *r == self.occluders_spec(),
    {
        &self.light_occluders
    }

    pub fn skylight_masks(&self) -> (r: &FixedArray<M>)
        ensures
            *r == self.masks_spec(),
    {
        &self.skylight_masks
    }

    pub fn probes(&self) -> (r: &ProbeRing<P>)
        ensures
            *r == self.probes_spec(),
    {
        &self.probes
    }

    /// The counter value that the next encoded frame will use.
    pub fn frame_counter(&self) -> (r: u32)
        ensures
            r == self.counter_spec().value_spec(),
    {
        self.counter.value()
    }

    /// The probe grid parameters of the last encoded frame.
    pub fn light_pass_grid(&self) -> (r: LightPassGrid)
        ensures
            r == self.grid_spec(),
    {
        self.grid
    }

    /// Encodes one frame: refills the light and occluder arrays with the
    /// visible entries and the mask array with every mask, each up to its
    /// capacity; stores the camera pose (the origin when there is no camera)
    /// in the probe slot of the current counter value; sets the probe grid
    /// parameters for a render target of `target_width` × `target_height`;
    /// then advances the counter.
    pub fn encode_frame(
        &mut self,
        lights: &Vec<Entry<L>>,
        occluders: &Vec<Entry<O>>,
        masks: &Vec<M>,
        camera_pose: Option<P>,
        origin: P,
        target_width: u32,
        target_height: u32,
    ) -> (report: FrameReport)
        requires
            old(self).wf(),
        ensures
            final(self).wf(),
            final(self).lights_spec().slots() == encoded(
                old(self).lights_spec().slots(),
                eligible(lights@),
            ),
            final(self).lights_spec().used() == take_up_to(
                eligible(lights@),
                old(self).lights_spec().cap(),
            ).len(),
            final(self).occluders_spec().slots() == encoded(
                old(self).occluders_spec().slots(),
                eligible(occluders@),
            ),
            final(self).occluders_spec().used() == take_up_to(
                eligible(occluders@),
                old(self).occluders_spec().cap(),
            ).len(),
            final(self).masks_spec().slots() == encoded(old(self).masks_spec().slots(), masks@),
            final(self).masks_spec().used() == take_up_to(
                masks@,
                old(self).masks_spec().cap(),
            ).len(),
            final(self).probes_spec().poses() == old(self).probes_spec().poses().update(
                old(self).counter_spec().value_spec() as int,
                frame_pose(camera_pose, origin),
            ),
            final(self).grid_spec() == (LightPassGrid {
                frame_counter: old(self).counter_spec().value_spec() as u32,
                probe_size: old(self).counter_spec().tile_spec() as u32,
                probe_atlas_cols: (target_width / (old(self).counter_spec().tile_spec() as u32)) as u32,
                probe_atlas_rows: (target_height / (old(self).counter_spec().tile_spec() as u32)) as u32,
            }),
            final(self).counter_spec().tile_spec() == old(self).counter_spec().tile_spec(),
            final(self).counter_spec().value_spec() == (old(self).counter_spec().value_spec() + 1)
                % old(self).counter_spec().period(),
            report.camera_found == camera_pose.is_some(),
            report.dropped_lights == eligible(lights@).len() - final(self).lights_spec().used(),
            report.dropped_occluders == eligible(occluders@).len()
                - final(self).occluders_spec().used(),
            report.dropped_masks == masks@.len() - final(self).masks_spec().used(),
    {
        let dropped_lights = self.light_sources.fill_visible(lights);
        let dropped_occluders = self.light_occluders.fill_visible(occluders);
        let dropped_masks = self.skylight_masks.fill_all(masks);

        let frame = self.counter.value();
        let tile = self.counter.tile_size();
        let camera_found = camera_pose.is_some();
        let pose = match camera_pose {
            Some(p) => p,
            None => origin,
        };
        self.probes.write(frame as usize, pose);

        let (cols, rows) = atlas_dims(target_width, target_height, tile);
        self.grid = LightPassGrid {
            frame_counter: frame,
            probe_size: tile,
            probe_atlas_cols: cols,
            probe_atlas_rows: rows,
        };
        self.counter.advance();
        FrameReport { camera_found, dropped_lights, dropped_occluders, dropped_masks }
    }
}

/// However many records are offered, a refilled array uses at most its
/// capacity, and exactly as many slots as there are records up to it.
pub proof fn lemma_count_within_capacity<T>(records: Seq<T>, cap: nat)
    ensures
        take_up_to(records, cap).len() <= cap,
        take_up_to(records, cap).len() == (if records.len() <= cap {
            records.len()
        } else {
            cap
        }),
        take_up_to(records, cap) == records.take(take_up_to(records, cap).len() as int),
{
    assert(records.take(records.len() as int) =~= records);
}

/// Refilling an array a second time with the same records leaves it exactly
/// as the first refill did.
pub proof fn lemma_encode_idempotent<T>(slots: Seq<T>, records: Seq<T>)
    ensures
        encoded(encoded(slots, records), records) == encoded(slots, records),
{
    assert(encoded(encoded(slots, records), records) =~= encoded(slots, records));
}

/// The records a refill puts in use are the first records offered, in order.
pub proof fn lemma_encoded_items<T>(slots: Seq<T>, records: Seq<T>)
    ensures
        encoded(slots, records).len() == slots.len(),
        encoded(slots, records).take(take_up_to(records, slots.len()).len() as int)
            == take_up_to(records, slots.len()),
{
    assert(encoded(slots, records).take(take_up_to(records, slots.len()).len() as int)
        =~= take_up_to(records, slots.len()));
}

} // verus!
