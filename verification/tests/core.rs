use cpubars::render::bar_top;
use cpubars::render::frame_tops;
use cpubars::render::make_bar;
use cpubars::render::make_bars;
use cpubars::render::APEX_Y;
use cpubars::render::BASELINE_Y;
use cpubars::render::FOOT_TOP_Y;
use cpubars::render::FULL_SCALE_BP;
use cpubars::sampler::guaranteed_publishes;
use cpubars::sampler::next_publish;
use cpubars::sampler::TICK_INTERVAL_MS;
use cpubars::store::copy_values;
use cpubars::store::SharedSnapshotCell;
use cpubars::store::SnapshotCell;

/// Converts an OS-reported utilization percentage to basis points, the way
/// the sampling side of the application does before handing values in.
fn to_basis_points(pct: f32) -> u32 {
    if pct <= 0.0 {
        0
    } else {
        (pct * 100.0) as u32
    }
}

#[test]
fn read_after_publish_returns_exactly_the_snapshot() {
    let mut cell = SnapshotCell::new(4);
    cell.publish(vec![1000, 5000, 9000, 2000]);
    assert_eq!(cell.read(), vec![1000, 5000, 9000, 2000]);
    // A second read without a publish in between returns the same value.
    assert_eq!(cell.read(), vec![1000, 5000, 9000, 2000]);
}

#[test]
fn new_cell_holds_all_zero_snapshot() {
    let cell = SnapshotCell::new(3);
    assert_eq!(cell.read(), vec![0, 0, 0]);
    assert_eq!(cell.len(), 3);
}

#[test]
fn shared_cell_read_is_complete_after_every_publish() {
    let shared = SharedSnapshotCell::new(4);
    assert_eq!(shared.cores(), 4);
    assert_eq!(shared.read(), vec![0, 0, 0, 0]);
    shared.publish(vec![1000, 5000, 9000, 2000]);
    let r = shared.read();
    assert_eq!(r.len(), 4);
    assert_eq!(r, vec![1000, 5000, 9000, 2000]);
    shared.publish(vec![1, 2, 3, 4]);
    assert_eq!(shared.read(), vec![1, 2, 3, 4]);
}

#[test]
fn copy_values_copies_element_for_element() {
    let src = vec![7, 0, 10000, 15000];
    assert_eq!(copy_values(&src), src);
    let empty: Vec<u32> = Vec::new();
    assert_eq!(copy_values(&empty), empty);
}

#[test]
fn zero_maps_to_baseline_and_full_scale_to_apex() {
    assert_eq!(bar_top(0), BASELINE_Y);
    assert_eq!(bar_top(FULL_SCALE_BP), APEX_Y);
}

#[test]
fn out_of_range_reading_is_clamped_to_apex() {
    // 150% from a faulty provider pins to the apex, not beyond it.
    assert_eq!(bar_top(to_basis_points(150.0)), APEX_Y);
    assert_eq!(bar_top(u32::MAX), APEX_Y);
}

#[test]
fn mapping_is_linear_between_baseline_and_apex() {
    // 50% sits exactly halfway up the bar's travel.
    assert_eq!(bar_top(5000), -3000);
    // One basis point moves the top edge by one vertical unit.
    assert_eq!(bar_top(1), BASELINE_Y + 1);
    assert_eq!(bar_top(FULL_SCALE_BP - 1), APEX_Y - 1);
}

#[test]
fn rendering_the_same_snapshot_twice_gives_the_same_frame() {
    let snapshot = vec![1000, 5000, 9000, 2000];
    assert_eq!(frame_tops(&snapshot), frame_tops(&snapshot));
}

#[test]
fn four_core_snapshot_renders_four_proportional_bars() {
    // Core count 4, utilization [10.0, 50.0, 90.0, 20.0] percent.
    let snapshot: Vec<u32> = [10.0f32, 50.0, 90.0, 20.0]
        .iter()
        .map(|p| to_basis_points(*p))
        .collect();
    assert_eq!(snapshot, vec![1000, 5000, 9000, 2000]);
    let tops = frame_tops(&snapshot);
    assert_eq!(tops.len(), 4);
    // Bar heights above the baseline are proportional to the utilization.
    let heights: Vec<i32> = tops.iter().map(|t| t - BASELINE_Y).collect();
    assert_eq!(heights, vec![1000, 5000, 9000, 2000]);
    assert_eq!(heights[1], 5 * heights[0]);
    assert_eq!(heights[2], 9 * heights[0]);
    assert_eq!(heights[3], 2 * heights[0]);
    // None exceeds the apex.
    for t in tops {
        assert!(t <= APEX_Y);
    }
}

#[test]
fn bar_quads_sit_one_unit_in_and_one_unit_wide() {
    let q = make_bar(0);
    assert_eq!(q.x0_units, 1);
    assert_eq!(q.x1_units, 2);
    assert_eq!(q.y_top, FOOT_TOP_Y);
    assert_eq!(q.y_bot, BASELINE_Y);
    let q2 = make_bar(6);
    assert_eq!(q2.x0_units, 7);
    assert_eq!(q2.x1_units, 8);
}

#[test]
fn layout_for_four_cores_has_five_quads_over_ten_units() {
    let layout = make_bars(4);
    assert_eq!(layout.denom, 10);
    assert_eq!(layout.quads.len(), 5);
    for (i, q) in layout.quads.iter().enumerate() {
        assert_eq!(q.x0_units as usize, 1 + 2 * i);
        assert_eq!(q.x1_units as usize, 2 + 2 * i);
    }
    // In clip coordinates: quad i spans [2*(1+2i)/10 - 1, 2*(2+2i)/10 - 1],
    // so the first quad of a 4-core layout starts at -0.8.
    let x0 = 2.0 * layout.quads[0].x0_units as f32 / layout.denom as f32 - 1.0;
    assert!((x0 - (-0.8)).abs() < 1e-6);
}

#[test]
fn layout_for_zero_cores_still_has_its_single_reserved_quad() {
    let layout = make_bars(0);
    assert_eq!(layout.denom, 2);
    assert_eq!(layout.quads.len(), 1);
}

#[test]
fn complete_readings_are_published_as_they_came() {
    let last = vec![0, 0, 0, 0];
    let readings = vec![1000, 5000, 9000, 2000];
    assert_eq!(next_publish(&last, readings.clone()), readings);
}

#[test]
fn empty_readings_keep_the_last_known_snapshot() {
    let last = vec![1000, 5000, 9000, 2000];
    assert_eq!(next_publish(&last, Vec::new()), last);
}

#[test]
fn incomplete_readings_keep_the_last_known_snapshot() {
    let last = vec![1000, 5000, 9000, 2000];
    assert_eq!(next_publish(&last, vec![1, 2]), last);
}

#[test]
fn at_least_three_publishes_within_three_and_a_half_seconds() {
    // One-second ticks with a 200 ms minimum measurement wait on top:
    // after 3.5 s of wall time, at least 3 publishes have completed.
    let n = guaranteed_publishes(3500, TICK_INTERVAL_MS, 200);
    assert!(n >= 3);
    assert_eq!(n, 3);
}

#[test]
fn first_publish_happens_at_start() {
    assert_eq!(guaranteed_publishes(0, TICK_INTERVAL_MS, 200), 1);
}

#[test]
fn minimum_wait_delays_cadence_by_at_most_its_own_duration() {
    // Without the minimum wait, 4 ticks fit in 3.5 s; with a wait of w,
    // the guaranteed count drops only as far as periods of (tick + w) allow.
    assert_eq!(guaranteed_publishes(3500, TICK_INTERVAL_MS, 0), 4);
    assert_eq!(guaranteed_publishes(3500, TICK_INTERVAL_MS, 200), 3);
    assert_eq!(guaranteed_publishes(3500, TICK_INTERVAL_MS, 750), 3);
}
