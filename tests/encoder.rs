use magic_light_2d::{Entry, FixedArray, FrameReport, GpuBuffer, LightPassGrid, PipelineAssets};

#[derive(Clone, Copy, Debug, PartialEq)]
struct Light {
    x: f32,
    y: f32,
    intensity: f32,
}

#[derive(Clone, Copy, Debug, PartialEq)]
struct Occluder {
    x: f32,
    y: f32,
    half_w: f32,
    half_h: f32,
}

#[derive(Clone, Copy, Debug, PartialEq)]
struct Mask {
    x: f32,
    y: f32,
}

type Pose = (f32, f32);

const BLANK_LIGHT: Light = Light { x: 0.0, y: 0.0, intensity: 0.0 };
const BLANK_OCCLUDER: Occluder = Occluder { x: 0.0, y: 0.0, half_w: 0.0, half_h: 0.0 };
const BLANK_MASK: Mask = Mask { x: 0.0, y: 0.0 };
const ORIGIN: Pose = (0.0, 0.0);

fn assets(cap: usize, tile: u32) -> PipelineAssets<Light, Occluder, Mask, Pose> {
    PipelineAssets::new(cap, cap, cap, tile, BLANK_LIGHT, BLANK_OCCLUDER, BLANK_MASK, (-1.0, -1.0))
}

fn light(i: u32) -> Light {
    Light { x: i as f32, y: -(i as f32), intensity: 1.0 + i as f32 }
}

fn visible<T>(item: T) -> Entry<T> {
    Entry { item, visible: true }
}

fn hidden<T>(item: T) -> Entry<T> {
    Entry { item, visible: false }
}

fn items<T: Copy>(a: &FixedArray<T>) -> Vec<T> {
    let mut v = Vec::new();
    for i in 0..a.count() {
        v.push(a.slot(i));
    }
    v
}

fn slots<T: Copy>(a: &FixedArray<T>) -> Vec<T> {
    let mut v = Vec::new();
    for i in 0..a.capacity() {
        v.push(a.slot(i));
    }
    v
}

#[test]
fn counts_follow_visible_entries_up_to_capacity() {
    let mut a = assets(3, 8);
    let lights = vec![visible(light(1)), hidden(light(2)), visible(light(3))];
    let occluders = vec![
        hidden(BLANK_OCCLUDER),
        visible(Occluder { x: 1.0, y: 2.0, half_w: 3.0, half_h: 4.0 }),
    ];
    let masks = vec![Mask { x: 5.0, y: 6.0 }];
    let report = a.encode_frame(&lights, &occluders, &masks, Some((1.0, 1.0)), ORIGIN, 64, 64);
    assert_eq!(a.light_sources().count(), 2);
    assert_eq!(items(a.light_sources()), vec![light(1), light(3)]);
    assert_eq!(a.light_occluders().count(), 1);
    assert_eq!(
        items(a.light_occluders()),
        vec![Occluder { x: 1.0, y: 2.0, half_w: 3.0, half_h: 4.0 }]
    );
    assert_eq!(a.skylight_masks().count(), 1);
    assert_eq!(
        report,
        FrameReport { camera_found: true, dropped_lights: 0, dropped_occluders: 0, dropped_masks: 0 }
    );
}

#[test]
fn excess_entries_are_dropped_and_counted() {
    let mut a = assets(2, 8);
    let lights: Vec<Entry<Light>> = (0..5).map(|i| visible(light(i))).collect();
    let occluders = vec![hidden(BLANK_OCCLUDER); 4];
    let masks = vec![BLANK_MASK, Mask { x: 1.0, y: 1.0 }, Mask { x: 2.0, y: 2.0 }];
    let report = a.encode_frame(&lights, &occluders, &masks, None, ORIGIN, 64, 64);
    assert_eq!(a.light_sources().count(), 2);
    assert_eq!(items(a.light_sources()), vec![light(0), light(1)]);
    assert_eq!(a.light_occluders().count(), 0);
    assert_eq!(a.skylight_masks().count(), 2);
    assert_eq!(report.dropped_lights, 3);
    assert_eq!(report.dropped_occluders, 0);
    assert_eq!(report.dropped_masks, 1);
}

#[test]
fn count_resets_each_frame_and_stale_slots_stay() {
    let mut a = assets(3, 8);
    let first = vec![visible(light(1)), visible(light(2)), visible(light(3))];
    a.encode_frame(&first, &vec![], &vec![], None, ORIGIN, 8, 8);
    let second = vec![visible(light(9))];
    a.encode_frame(&second, &vec![], &vec![], None, ORIGIN, 8, 8);
    assert_eq!(a.light_sources().count(), 1);
    assert_eq!(slots(a.light_sources()), vec![light(9), light(2), light(3)]);
    a.encode_frame(&vec![], &vec![], &vec![], None, ORIGIN, 8, 8);
    assert_eq!(a.light_sources().count(), 0);
}

#[test]
fn zero_capacity_holds_nothing() {
    let mut a: PipelineAssets<Light, Occluder, Mask, Pose> =
        PipelineAssets::new(0, 0, 0, 2, BLANK_LIGHT, BLANK_OCCLUDER, BLANK_MASK, ORIGIN);
    let report = a.encode_frame(&vec![visible(light(1))], &vec![visible(BLANK_OCCLUDER)], &vec![BLANK_MASK], None, ORIGIN, 4, 4);
    assert_eq!(a.light_sources().count(), 0);
    assert_eq!(a.light_occluders().count(), 0);
    assert_eq!(a.skylight_masks().count(), 0);
    assert_eq!(report.dropped_lights, 1);
    assert_eq!(report.dropped_occluders, 1);
    assert_eq!(report.dropped_masks, 1);
}

#[test]
fn push_within_capacity_stops_when_full() {
    let mut a = FixedArray::new(2, 0u32);
    assert!(a.push_within_capacity(4));
    assert!(a.push_within_capacity(5));
    assert!(!a.push_within_capacity(6));
    assert_eq!(items(&a), vec![4, 5]);
    a.clear();
    assert_eq!(a.count(), 0);
    assert_eq!(slots(&a), vec![4, 5]);
}

#[test]
fn frame_counter_wraps_at_tile_squared() {
    let mut a = assets(1, 2);
    let mut seen = Vec::new();
    for _ in 0..9 {
        seen.push(a.frame_counter());
        a.encode_frame(&vec![], &vec![], &vec![], None, ORIGIN, 8, 8);
    }
    assert_eq!(seen, vec![0, 1, 2, 3, 0, 1, 2, 3, 0]);
}

#[test]
fn frame_counter_period_for_tile_eight() {
    let mut a = assets(1, 8);
    for n in 0..130u32 {
        assert_eq!(a.frame_counter(), n % 64);
        a.encode_frame(&vec![], &vec![], &vec![], None, ORIGIN, 8, 8);
    }
    assert_eq!(a.probes().len(), 64);
}

#[test]
fn next_frame_values() {
    assert_eq!(magic_light_2d::next_frame(0, 8), 1);
    assert_eq!(magic_light_2d::next_frame(62, 8), 63);
    assert_eq!(magic_light_2d::next_frame(63, 8), 0);
    assert_eq!(magic_light_2d::next_frame(0, 1), 0);
}

#[test]
fn atlas_dims_exact_and_partial() {
    assert_eq!(magic_light_2d::atlas_dims(512, 512, 8), (64, 64));
    assert_eq!(magic_light_2d::atlas_dims(1920, 1080, 8), (240, 135));
    assert_eq!(magic_light_2d::atlas_dims(1366, 767, 8), (170, 95));
    assert_eq!(magic_light_2d::atlas_dims(7, 0, 8), (0, 0));
}

#[test]
fn grid_parameters_follow_target_and_counter() {
    let mut a = assets(1, 8);
    a.encode_frame(&vec![], &vec![], &vec![], None, ORIGIN, 1366, 768);
    assert_eq!(
        a.light_pass_grid(),
        LightPassGrid { frame_counter: 0, probe_size: 8, probe_atlas_cols: 170, probe_atlas_rows: 96 }
    );
    a.encode_frame(&vec![], &vec![], &vec![], None, ORIGIN, 800, 600);
    assert_eq!(
        a.light_pass_grid(),
        LightPassGrid { frame_counter: 1, probe_size: 8, probe_atlas_cols: 100, probe_atlas_rows: 75 }
    );
}

#[test]
fn missing_camera_writes_origin_pose() {
    let mut a = assets(1, 2);
    a.encode_frame(&vec![], &vec![], &vec![], Some((3.0, 4.0)), ORIGIN, 8, 8);
    assert_eq!(a.probes().pose(0), (3.0, 4.0));
    let report = a.encode_frame(&vec![], &vec![], &vec![], None, ORIGIN, 8, 8);
    assert!(!report.camera_found);
    assert_eq!(a.probes().pose(1), ORIGIN);
    assert_eq!(a.probes().pose(0), (3.0, 4.0));
    assert_eq!(a.probes().pose(2), (-1.0, -1.0));
}

#[test]
fn probe_slot_follows_counter_and_is_overwritten_next_cycle() {
    let mut a = assets(1, 2);
    for k in 0..4 {
        a.encode_frame(&vec![], &vec![], &vec![], Some((k as f32, 0.0)), ORIGIN, 8, 8);
    }
    a.encode_frame(&vec![], &vec![], &vec![], Some((10.0, 10.0)), ORIGIN, 8, 8);
    assert_eq!(a.probes().pose(0), (10.0, 10.0));
    assert_eq!(a.probes().pose(1), (1.0, 0.0));
    assert_eq!(a.probes().pose(3), (3.0, 0.0));
}

#[test]
fn encoding_same_snapshot_twice_gives_identical_arrays() {
    let mut a = assets(4, 8);
    let lights = vec![visible(light(1)), hidden(light(2)), visible(light(3))];
    let occluders = vec![visible(Occluder { x: 0.5, y: 0.5, half_w: 1.0, half_h: 2.0 })];
    let masks = vec![Mask { x: 1.0, y: 2.0 }, Mask { x: 3.0, y: 4.0 }];
    a.encode_frame(&lights, &occluders, &masks, Some(ORIGIN), ORIGIN, 64, 64);
    let first = (slots(a.light_sources()), slots(a.light_occluders()), slots(a.skylight_masks()));
    let counts = (a.light_sources().count(), a.light_occluders().count(), a.skylight_masks().count());
    a.encode_frame(&lights, &occluders, &masks, Some(ORIGIN), ORIGIN, 64, 64);
    let second = (slots(a.light_sources()), slots(a.light_occluders()), slots(a.skylight_masks()));
    assert_eq!(first, second);
    assert_eq!(
        counts,
        (a.light_sources().count(), a.light_occluders().count(), a.skylight_masks().count())
    );
}

#[test]
fn end_to_end_three_lights_one_occluder_one_mask() {
    let mut a = assets(3, 8);
    let lights = vec![visible(light(1)), visible(light(2)), visible(light(3))];
    let occluders = vec![visible(Occluder { x: 0.0, y: 0.0, half_w: 40.0, half_h: 20.0 })];
    let masks = vec![Mask { x: 10.0, y: 10.0 }];
    let report = a.encode_frame(&lights, &occluders, &masks, Some(ORIGIN), ORIGIN, 512, 512);
    assert_eq!(a.light_sources().count(), 3);
    assert_eq!(a.light_occluders().count(), 1);
    assert_eq!(a.skylight_masks().count(), 1);
    assert!(report.camera_found);
    assert_eq!(a.probes().pose(0), ORIGIN);
    assert_eq!(a.light_pass_grid().probe_atlas_cols, 64);
    assert_eq!(a.light_pass_grid().probe_atlas_rows, 64);
}

#[test]
fn frame_counter_type_advances_and_wraps() {
    let mut c = magic_light_2d::FrameCounter::new(3);
    assert_eq!(c.tile_size(), 3);
    for n in 1..=18u32 {
        c.advance();
        assert_eq!(c.value(), n % 9);
    }
}

#[test]
fn probe_ring_write_keeps_other_slots() {
    let mut r = magic_light_2d::ProbeRing::new(4, 0i32);
    r.write(2, 7);
    assert_eq!(r.pose(2), 7);
    assert_eq!(r.pose(1), 0);
    assert_eq!(r.len(), 4);
}

#[test]
fn buffers_upload_in_fixed_order() {
    assert_eq!(
        magic_light_2d::upload_order(),
        vec![
            GpuBuffer::LightSources,
            GpuBuffer::LightOccluders,
            GpuBuffer::CameraParams,
            GpuBuffer::LightPassParams,
            GpuBuffer::Probes,
            GpuBuffer::SkylightMasks,
        ]
    );
}
