use mandelbrot::orbit::escape_time;
use mandelbrot::orbit::test_pixel;
use mandelbrot::orbit::OrbitMonitor;
use mandelbrot::orbit::OrbitPhase;
use mandelbrot::orbit::OrbitStep;
use mandelbrot::orbit::SNAPSHOT_PERIOD;
use mandelbrot::sample::Sample;
use std::cell::Cell;

#[test]
fn snapshot_period_is_twenty() {
    assert_eq!(SNAPSHOT_PERIOD, 20);
}

#[test]
fn cardioid_point_is_interior_without_a_step() {
    let mut monitor: OrbitMonitor = OrbitMonitor::start(1000, true, false);
    assert_eq!(monitor.phase(), OrbitPhase::Interior);
    assert!(!monitor.proceed(true));
    assert_eq!(monitor.iteration(), 0);
    assert_eq!(monitor.escaped_after(), None);
}

#[test]
fn bulb_point_is_interior_without_a_step() {
    let mut monitor: OrbitMonitor = OrbitMonitor::start(1000, false, true);
    assert_eq!(monitor.phase(), OrbitPhase::Interior);
    assert!(!monitor.proceed(true));
    assert_eq!(monitor.advance(false), OrbitStep::Stop);
    assert_eq!(monitor.iteration(), 0);
}

#[test]
fn escape_is_counted_in_steps() {
    let mut monitor: OrbitMonitor = OrbitMonitor::start(1000, false, false);
    assert!(monitor.proceed(true));
    assert_eq!(monitor.advance(false), OrbitStep::Continue);
    assert!(monitor.proceed(true));
    assert_eq!(monitor.advance(false), OrbitStep::Continue);
    assert!(!monitor.proceed(false));
    assert_eq!(monitor.phase(), OrbitPhase::Escaped);
    assert_eq!(monitor.escaped_after(), Some(2));
}

#[test]
fn repeated_point_settles_interior() {
    let mut monitor: OrbitMonitor = OrbitMonitor::start(1000, false, false);
    assert!(monitor.proceed(true));
    assert_eq!(monitor.advance(true), OrbitStep::Stop);
    assert_eq!(monitor.phase(), OrbitPhase::Interior);
    assert_eq!(monitor.iteration(), 1);
    assert!(!monitor.proceed(true));
    assert_eq!(monitor.escaped_after(), None);
}

#[test]
fn every_twentieth_step_renews_the_point_of_comparison() {
    let mut monitor: OrbitMonitor = OrbitMonitor::start(1000, false, false);
    let mut snapshots: Vec<u32> = Vec::new();
    for _ in 0..65 {
        assert!(monitor.proceed(true));
        match monitor.advance(false) {
            OrbitStep::Snapshot => snapshots.push(monitor.iteration()),
            OrbitStep::Continue => {}
            OrbitStep::Stop => panic!("the loop stopped"),
        }
    }
    assert_eq!(snapshots, vec![20, 40, 60]);
}

#[test]
fn cap_settles_interior_even_out_of_bounds() {
    let mut monitor: OrbitMonitor = OrbitMonitor::start(3, false, false);
    for _ in 0..3 {
        assert!(monitor.proceed(true));
        assert_ne!(monitor.advance(false), OrbitStep::Stop);
    }
    assert!(!monitor.proceed(false));
    assert_eq!(monitor.phase(), OrbitPhase::Interior);
    assert_eq!(monitor.iteration(), 3);
    assert_eq!(monitor.escaped_after(), None);
    assert_eq!(monitor.advance(false), OrbitStep::Stop);
    assert_eq!(monitor.iteration(), 3);
}

#[test]
fn cap_zero_is_interior_at_once() {
    let mut monitor: OrbitMonitor = OrbitMonitor::start(0, false, false);
    assert!(!monitor.proceed(true));
    assert_eq!(monitor.phase(), OrbitPhase::Interior);
}

#[test]
fn escape_time_counts_steps_until_out_of_bounds() {
    let step = |z: u64| z * 2;
    let bounded = |z: u64| z <= 100;
    let same = |a: u64, b: u64| a == b;
    let (monitor, last) = escape_time(1000, false, false, 1u64, &step, &bounded, &same);
    assert_eq!(monitor.phase(), OrbitPhase::Escaped);
    assert_eq!(monitor.escaped_after(), Some(7));
    assert_eq!(last, 128);
}

#[test]
fn escape_time_makes_no_call_for_known_interior() {
    let calls: Cell<u32> = Cell::new(0);
    let step = |z: u64| {
        calls.set(calls.get() + 1);
        z + 1
    };
    let bounded = |_z: u64| {
        calls.set(calls.get() + 1);
        true
    };
    let same = |_a: u64, _b: u64| {
        calls.set(calls.get() + 1);
        false
    };
    let (monitor, last) = escape_time(1000, true, false, 5u64, &step, &bounded, &same);
    assert_eq!(monitor.phase(), OrbitPhase::Interior);
    assert_eq!(monitor.iteration(), 0);
    assert_eq!(last, 5);
    let (monitor, last) = escape_time(1000, false, true, 6u64, &step, &bounded, &same);
    assert_eq!(monitor.phase(), OrbitPhase::Interior);
    assert_eq!(monitor.iteration(), 0);
    assert_eq!(last, 6);
    assert_eq!(calls.get(), 0);
}

#[test]
fn escape_time_finds_a_fixed_point_at_the_first_step() {
    let step = |z: u64| z;
    let bounded = |_z: u64| true;
    let same = |a: u64, b: u64| a == b;
    let (monitor, last) = escape_time(1000, false, false, 9u64, &step, &bounded, &same);
    assert_eq!(monitor.phase(), OrbitPhase::Interior);
    assert_eq!(monitor.iteration(), 1);
    assert_eq!(last, 9);
}

#[test]
fn escape_time_finds_a_cycle_after_the_point_of_comparison_is_renewed() {
    let step = |z: u64| if z < 30 { z + 1 } else { 28 };
    let bounded = |_z: u64| true;
    let same = |a: u64, b: u64| a == b;
    let (monitor, last) = escape_time(1000, false, false, 0u64, &step, &bounded, &same);
    assert_eq!(monitor.phase(), OrbitPhase::Interior);
    assert_eq!(monitor.iteration(), 43);
    assert_eq!(last, 28);
}

#[test]
fn escape_time_stops_at_the_cap() {
    let step = |z: u64| z + 1;
    let bounded = |_z: u64| true;
    let same = |a: u64, b: u64| a == b;
    let (monitor, last) = escape_time(50, false, false, 0u64, &step, &bounded, &same);
    assert_eq!(monitor.phase(), OrbitPhase::Interior);
    assert_eq!(monitor.iteration(), 50);
    assert_eq!(monitor.escaped_after(), None);
    assert_eq!(last, 50);
}

#[test]
fn escape_time_at_the_cap_is_interior_even_out_of_bounds() {
    let step = |z: u64| z + 1;
    let bounded = |z: u64| z < 5;
    let same = |a: u64, b: u64| a == b;
    let (monitor, last) = escape_time(5, false, false, 0u64, &step, &bounded, &same);
    assert_eq!(monitor.phase(), OrbitPhase::Interior);
    assert_eq!(last, 5);
    let (monitor, last) = escape_time(6, false, false, 0u64, &step, &bounded, &same);
    assert_eq!(monitor.escaped_after(), Some(5));
    assert_eq!(last, 5);
}

#[test]
fn escape_time_of_origin_out_of_bounds_is_zero_steps() {
    let step = |z: u64| z + 1;
    let bounded = |_z: u64| false;
    let same = |a: u64, b: u64| a == b;
    let (monitor, last) = escape_time(10, false, false, 3u64, &step, &bounded, &same);
    assert_eq!(monitor.escaped_after(), Some(0));
    assert_eq!(last, 3);
}

#[test]
fn test_pixel_is_interior_without_a_call_for_known_interior() {
    let calls: Cell<u32> = Cell::new(0);
    let step = |z: u64| {
        calls.set(calls.get() + 1);
        z + 1
    };
    let bounded = |_z: u64| {
        calls.set(calls.get() + 1);
        false
    };
    let same = |_a: u64, _b: u64| {
        calls.set(calls.get() + 1);
        false
    };
    let renormalise = |_z: u64| {
        calls.set(calls.get() + 1);
        0u32
    };
    assert_eq!(test_pixel(1000, true, false, 0u64, &step, &bounded, &same, &renormalise), Sample::Interior);
    assert_eq!(test_pixel(1000, false, true, 0u64, &step, &bounded, &same, &renormalise), Sample::Interior);
    assert_eq!(test_pixel(1000, true, true, 0u64, &step, &bounded, &same, &renormalise), Sample::Interior);
    assert_eq!(calls.get(), 0);
}

#[test]
fn test_pixel_smooths_the_count_of_an_escaped_orbit() {
    let step = |z: u64| z * 2;
    let bounded = |z: u64| z <= 100;
    let same = |a: u64, b: u64| a == b;
    let renormalise = |z: u64| {
        assert_eq!(z, 128);
        98304u32
    };
    let sample: Sample = test_pixel(1000, false, false, 1u64, &step, &bounded, &same, &renormalise);
    assert_eq!(sample, Sample::Escaped { whole: 6, fraction: 32768 });
}

#[test]
fn test_pixel_is_interior_for_a_repeating_orbit_and_at_the_cap() {
    let bounded = |_z: u64| true;
    let same = |a: u64, b: u64| a == b;
    let renormalise = |_z: u64| 65536u32;
    let fixed = |z: u64| z;
    assert_eq!(test_pixel(1000, false, false, 4u64, &fixed, &bounded, &same, &renormalise), Sample::Interior);
    let growing = |z: u64| z + 1;
    assert_eq!(test_pixel(30, false, false, 0u64, &growing, &bounded, &same, &renormalise), Sample::Interior);
}

#[test]
fn smoothed_count_is_steps_plus_one_minus_term() {
    assert_eq!(Sample::smoothed(7, 98304, 1000), Sample::Escaped { whole: 6, fraction: 32768 });
    assert_eq!(Sample::smoothed(7, 65536, 1000), Sample::Escaped { whole: 7, fraction: 0 });
    assert_eq!(Sample::smoothed(0, 16384, 1000), Sample::Escaped { whole: 0, fraction: 49152 });
}

#[test]
fn smoothed_count_is_not_below_zero() {
    assert_eq!(Sample::smoothed(0, 65537, 1000), Sample::Escaped { whole: 0, fraction: 0 });
    assert_eq!(Sample::smoothed(1, u32::MAX, 1000), Sample::Escaped { whole: 0, fraction: 0 });
}

#[test]
fn smoothed_count_at_the_cap_is_interior() {
    assert_eq!(Sample::smoothed(999, 0, 1000), Sample::Interior);
    assert_eq!(Sample::smoothed(999, 1, 1000), Sample::Escaped { whole: 999, fraction: 65535 });
    assert_eq!(Sample::smoothed(u32::MAX, 0, u32::MAX), Sample::Interior);
}
