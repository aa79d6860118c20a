//! Per-frame preparation of 2D global-illumination data: fixed-capacity record
//! arrays with explicit counts, a wrapping frame counter, a ring of per-frame
//! probe poses and the encoder that fills them once per frame.

mod fixed_array;
mod frame;
mod pipeline;
mod probes;

pub use fixed_array::{Entry, FixedArray, eligible, overwrite_prefix, take_up_to};
pub use frame::{
    FrameCounter, atlas_dims, counter_after, lemma_frame_sequence, next_frame, probe_period,
};
pub use pipeline::{
    FrameReport, GpuBuffer, LightPassGrid, PipelineAssets, encoded, frame_pose,
    lemma_count_within_capacity, lemma_encode_idempotent, lemma_encoded_items, upload_order,
    upload_sequence,
};
pub use probes::ProbeRing;
