use ntp_clock::clock::{capture, project, try_project, ReferenceTime, MILLIS_PER_SECOND};

fn reference() -> ReferenceTime {
    ReferenceTime { wall_clock_seconds: 1_700_000_000, monotonic_at_capture: 5_000 }
}

#[test]
fn capture_records_both_readings() {
    let captured = capture(1_692_493_649, 12_345);
    assert_eq!(captured.wall_clock_seconds, 1_692_493_649);
    assert_eq!(captured.monotonic_at_capture, 12_345);
    assert_eq!(captured, ReferenceTime { wall_clock_seconds: 1_692_493_649, monotonic_at_capture: 12_345 });
}

#[test]
fn capture_does_not_swap_or_default_its_arguments() {
    let captured = capture(u32::MAX, u64::MAX);
    assert_eq!(captured.wall_clock_seconds, u32::MAX);
    assert_eq!(captured.monotonic_at_capture, u64::MAX);
    let zero = capture(0, 0);
    assert_eq!(zero, ReferenceTime { wall_clock_seconds: 0, monotonic_at_capture: 0 });
}

#[test]
fn projection_adds_whole_elapsed_seconds() {
    assert_eq!(project(reference(), 65_000, 0), 1_700_000_060);
    assert_eq!(try_project(reference(), 65_000, 0), Some(1_700_000_060));
}

#[test]
fn projection_at_capture_is_the_captured_value() {
    let r = reference();
    assert_eq!(project(r, r.monotonic_at_capture, 0), r.wall_clock_seconds);
    let late = ReferenceTime { wall_clock_seconds: u32::MAX, monotonic_at_capture: u64::MAX };
    assert_eq!(project(late, u64::MAX, 0), u32::MAX);
    let early = ReferenceTime { wall_clock_seconds: 0, monotonic_at_capture: 0 };
    assert_eq!(project(early, 0, 0), 0);
}

#[test]
fn projection_never_decreases_with_the_counter() {
    let r = reference();
    let mut previous = project(r, r.monotonic_at_capture, 0);
    let mut now = r.monotonic_at_capture;
    for step in [0u64, 1, 998, 1, 1, 499, 500, 1_000, 59_000, 3_600_000, 86_400_000] {
        now += step;
        let projected = project(r, now, 0);
        assert!(projected >= previous);
        previous = projected;
    }
    assert_eq!(previous, 1_700_000_000 + 90_062);
}

#[test]
fn projection_truncates_fractions_of_a_second() {
    let r = reference();
    assert_eq!(project(r, 5_001, 0), 1_700_000_000);
    assert_eq!(project(r, 5_999, 0), 1_700_000_000);
    assert_eq!(project(r, 6_000, 0), 1_700_000_001);
    assert_eq!(project(r, 6_999, 0), 1_700_000_001);
    assert_eq!(project(r, 7_000, 0), 1_700_000_002);
}

#[test]
fn projection_counts_from_the_capture_not_from_boot() {
    let r = ReferenceTime { wall_clock_seconds: 100, monotonic_at_capture: 1_999 };
    assert_eq!(project(r, 2_998, 0), 100);
    assert_eq!(project(r, 2_999, 0), 101);
    assert_eq!(project(r, 3_000, 0), 101);
}

#[test]
fn projection_applies_the_zone_offset() {
    let r = reference();
    assert_eq!(project(r, 65_000, 10_800), 1_700_010_860);
    assert_eq!(project(r, 65_000, -3_600), 1_699_996_460);
    assert_eq!(project(r, 5_000, 1), 1_700_000_001);
}

#[test]
fn projection_with_eastern_offset_is_not_before_the_reference() {
    let r = reference();
    for now in [5_000u64, 5_001, 6_000, 1_000_000_000] {
        for zone in [0i32, 1, 3_600, 10_800] {
            assert!(project(r, now, zone) >= r.wall_clock_seconds);
        }
    }
}

#[test]
fn a_thousand_ticks_are_one_second() {
    let r = reference();
    for start in [5_000u64, 5_001, 5_999, 123_456_789] {
        let mut previous = project(r, start, 10_800);
        for tick in 1..=5u64 {
            let projected = project(r, start + tick * MILLIS_PER_SECOND, 10_800);
            assert_eq!(projected, previous + 1);
            previous = projected;
        }
    }
}

#[test]
fn try_project_refuses_a_counter_that_ran_backwards() {
    let r = reference();
    assert_eq!(try_project(r, 4_999, 0), None);
    assert_eq!(try_project(r, 0, 10_800), None);
    assert_eq!(try_project(r, 5_000, 0), Some(1_700_000_000));
}

#[test]
fn try_project_refuses_what_does_not_fit() {
    let late = ReferenceTime { wall_clock_seconds: u32::MAX, monotonic_at_capture: 0 };
    assert_eq!(try_project(late, 999, 0), Some(u32::MAX));
    assert_eq!(try_project(late, 1_000, 0), None);
    assert_eq!(try_project(late, 0, 1), None);
    assert_eq!(try_project(late, 1_000, -1), Some(u32::MAX));
    let early = ReferenceTime { wall_clock_seconds: 10, monotonic_at_capture: 0 };
    assert_eq!(try_project(early, 0, -10), Some(0));
    assert_eq!(try_project(early, 0, -11), None);
    assert_eq!(try_project(early, 1_000, -11), Some(0));
    assert_eq!(try_project(early, u64::MAX, 0), None);
    assert_eq!(try_project(early, u64::MAX, i32::MIN), None);
    let zero = ReferenceTime { wall_clock_seconds: 0, monotonic_at_capture: 0 };
    assert_eq!(try_project(zero, 4_294_967_295_999, 0), Some(u32::MAX));
    assert_eq!(try_project(zero, 4_294_967_296_000, 0), None);
    assert_eq!(try_project(zero, 4_294_967_296_000, -1), Some(u32::MAX));
}

#[test]
fn try_project_agrees_with_project() {
    let r = reference();
    for now in [5_000u64, 65_000, 86_405_000] {
        for zone in [-3_600i32, 0, 10_800] {
            assert_eq!(try_project(r, now, zone), Some(project(r, now, zone)));
        }
    }
}
