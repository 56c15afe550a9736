use rust_autoclicker::clicker::{
    is_in_corner, plan_clicker, plan_is_computable, Action, Clicker, ClickerPlan, CursorSample,
    MouseButton, Observation, StopReason, TimingMode,
};
use rust_autoclicker::rng::FastRng;

fn plan(h: i32, m: i32, s: i32, ms: i32) -> ClickerPlan {
    plan_clicker(h, m, s, ms, false, 0, false, 0, false, u128::MAX, false, 0, 0, false, 0, 0, 0, 0)
}

fn obs(tsc: u64) -> Observation {
    Observation {
        tsc,
        running: true,
        hotkey_held: false,
        elapsed_nanos: 0,
        safety_enabled: false,
        cursor: None,
    }
}

/// Runs the machine with the given observations until it ends, and returns
/// the actions it asked for, leaving out `Proceed`.
fn run(c: &mut Clicker, mut next: impl FnMut(usize) -> Observation, limit: usize) -> Vec<Action> {
    let mut acts = Vec::new();
    for i in 0..limit {
        let a = c.step(&next(i));
        if a != Action::Proceed {
            acts.push(a);
        }
        match a {
            Action::Stop { .. } | Action::Finish | Action::Overflow => return acts,
            _ => {}
        }
    }
    acts
}

#[test]
fn interval_and_modes() {
    let p = plan(0, 0, 0, 100);
    assert_eq!(p.target_delay_ns, 100_000_000);
    assert_eq!(p.mode, TimingMode::Standard);
    assert_eq!(plan(0, 0, 0, 14).mode, TimingMode::UltraPrecision);
    assert_eq!(plan(0, 0, 0, 15).mode, TimingMode::HighPrecision);
    assert_eq!(plan(0, 0, 0, 49).mode, TimingMode::HighPrecision);
    assert_eq!(plan(0, 0, 0, 50).mode, TimingMode::Standard);
    assert_eq!(plan(1, 2, 3, 4).target_delay_ns, 3_723_004_000_000);
}

#[test]
fn negative_interval_counts_as_zero() {
    let p = plan(0, 0, -5, 100);
    assert_eq!(p.target_delay_ns, 0);
    assert_eq!(p.mode, TimingMode::UltraPrecision);
}

#[test]
fn buttons_and_click_types() {
    let p = plan_clicker(0, 0, 0, 1, false, 0, false, 0, false, 0, false, 1, 1, false, 0, 0, 0, 0);
    assert_eq!(p.button, MouseButton::Right);
    assert!(p.double_click);
    let p = plan_clicker(0, 0, 0, 1, false, 0, false, 0, false, 0, false, 7, 0, false, 0, 0, 0, 0);
    assert_eq!(p.button, MouseButton::Middle);
    assert!(!p.double_click);
}

#[test]
fn fixed_position_is_scaled() {
    let p = plan_clicker(0, 0, 0, 1, false, 0, false, 0, false, 0, false, 0, 0, true, 960, 540, 1920, 1080);
    assert_eq!((p.norm_x, p.norm_y), (32767, 32767));
    let p = plan_clicker(0, 0, 0, 1, false, 0, false, 0, false, 0, false, 0, 0, true, -10, 5, 1920, 1080);
    assert_eq!((p.norm_x, p.norm_y), (-341, 303));
    let p = plan_clicker(0, 0, 0, 1, false, 0, false, 0, false, 0, false, 0, 0, true, 10, 10, 0, 1080);
    assert_eq!((p.norm_x, p.norm_y), (0, 0));
}

#[test]
fn random_offset_is_used_only_when_positive() {
    let p = plan_clicker(0, 0, 0, 10, true, 40, false, 0, false, 0, false, 0, 0, false, 0, 0, 0, 0);
    assert!(p.randomize);
    assert_eq!(p.random_range_ns, 40_000_000);
    let p = plan_clicker(0, 0, 0, 10, true, 0, false, 0, false, 0, false, 0, 0, false, 0, 0, 0, 0);
    assert!(!p.randomize);
    assert!(p.use_random);
    assert_eq!(p.random_range_ns, 0);
}

#[test]
fn computability_check() {
    assert!(plan_is_computable(0, 0, 0, 100, false, 0, 0, 0, 0));
    assert!(!plan_is_computable(i32::MAX, 0, 0, 0, false, 0, 0, 0, 0));
    assert!(!plan_is_computable(0, 0, 0, 1, true, 40000, 0, 1920, 1080));
    assert!(plan_is_computable(0, 0, 0, 1, true, 32767, 0, 1920, 1080));
    assert!(plan_is_computable(0, 0, 0, 1, true, 40000, 0, 0, 1080));
}

#[test]
fn finite_run_makes_the_requested_clicks() {
    let p = plan_clicker(0, 0, 0, 0, false, 0, true, 2, false, u128::MAX, false, 0, 0, false, 0, 0, 0, 0);
    let mut c = Clicker::start(p, None, true, 0);
    let acts = run(&mut c, |i| obs(i as u64), 100);
    assert_eq!(
        acts,
        vec![
            Action::SendClick,
            Action::PublishClickCount { count: 1 },
            Action::SendClick,
            Action::PublishClickCount { count: 2 },
            Action::Stop { reason: StopReason::CountReached },
        ]
    );
}

#[test]
fn finite_run_below_one_still_clicks_once() {
    let p = plan_clicker(0, 0, 0, 0, false, 0, true, 0, false, u128::MAX, false, 0, 0, false, 0, 0, 0, 0);
    let mut c = Clicker::start(p, None, true, 0);
    let acts = run(&mut c, |i| obs(i as u64), 100);
    assert_eq!(acts.iter().filter(|a| **a == Action::SendClick).count(), 1);
    assert_eq!(acts.last(), Some(&Action::Stop { reason: StopReason::CountReached }));
}

#[test]
fn stopped_flag_ends_the_run_without_clicking() {
    let mut c = Clicker::start(plan(0, 0, 0, 0), None, false, 0);
    assert_eq!(c.step(&obs(0)), Action::Finish);
    assert_eq!(c.step(&obs(1)), Action::Finish);
}

#[test]
fn cleared_flag_is_seen_after_the_click() {
    let mut c = Clicker::start(plan(0, 0, 0, 0), None, true, 0);
    let acts = run(&mut c, |i| Observation { running: i < 2, ..obs(i as u64) }, 100);
    assert_eq!(acts, vec![Action::SendClick, Action::PublishClickCount { count: 1 }, Action::Finish]);
}

#[test]
fn zero_interval_yields_every_hundred_clicks() {
    let mut c = Clicker::start(plan(0, 0, 0, 0), None, true, 0);
    let acts = run(&mut c, |i| obs(i as u64), 2000);
    assert!(acts.iter().all(|a| !matches!(a, Action::Sleep { .. } | Action::Relax)));
    let yields: Vec<usize> = acts
        .iter()
        .enumerate()
        .filter(|(_, a)| **a == Action::Yield)
        .map(|(i, _)| i)
        .collect();
    assert!(!yields.is_empty());
    assert_eq!(acts[yields[0] - 1], Action::PublishClickCount { count: 100 });
}

#[test]
fn releasing_the_hotkey_stops_a_held_run() {
    let p = plan_clicker(0, 0, 0, 0, false, 0, false, 0, false, u128::MAX, true, 0, 0, false, 0, 0, 0, 0);
    let mut c = Clicker::start(p, None, true, 0);
    let acts = run(&mut c, |i| Observation { hotkey_held: i < 8, ..obs(i as u64) }, 100);
    assert_eq!(acts.last(), Some(&Action::Stop { reason: StopReason::HotkeyReleased }));
    assert!(!StopReason::HotkeyReleased.disables_stop_button());
    assert!(StopReason::CountReached.disables_stop_button());
}

#[test]
fn timed_run_stops_when_time_is_up() {
    let p = plan_clicker(0, 0, 0, 0, false, 0, false, 0, true, 1_000, false, 0, 0, false, 0, 0, 0, 0);
    let mut c = Clicker::start(p, None, true, 0);
    let acts = run(&mut c, |i| Observation { elapsed_nanos: i as u128 * 100, ..obs(i as u64) }, 1000);
    assert_eq!(acts.last(), Some(&Action::Stop { reason: StopReason::DurationElapsed }));
}

#[test]
fn corner_detection_stops_after_ten_readings() {
    let mut c = Clicker::start(plan(0, 0, 0, 0), None, true, 0);
    let corner = CursorSample { x: 0, y: 0, screen_width: 1920, screen_height: 1080 };
    let acts = run(
        &mut c,
        |i| Observation {
            safety_enabled: true,
            cursor: Some(corner),
            ..obs(i as u64 * 1_000_000_000)
        },
        1000,
    );
    assert_eq!(acts.iter().filter(|a| **a == Action::ProbeCursor).count(), 10);
    assert_eq!(acts.iter().filter(|a| **a == Action::SendClick).count(), 10);
    assert_eq!(acts.last(), Some(&Action::Stop { reason: StopReason::Safety }));
    assert!(StopReason::Safety.shows_warning());
}

#[test]
fn leaving_the_corner_resets_the_count() {
    let mut c = Clicker::start(plan(0, 0, 0, 0), None, true, 0);
    let corner = CursorSample { x: 1919, y: 1079, screen_width: 1920, screen_height: 1080 };
    let middle = CursorSample { x: 900, y: 500, screen_width: 1920, screen_height: 1080 };
    let mut probes = 0;
    let mut acts = Vec::new();
    for i in 0..2000u64 {
        let cursor = if probes == 5 { middle } else { corner };
        let a = c.step(&Observation {
            safety_enabled: true,
            cursor: Some(cursor),
            ..obs(i * 1_000_000_000)
        });
        if a == Action::ProbeCursor {
            probes += 1;
        }
        acts.push(a);
        if matches!(a, Action::Stop { .. }) {
            break;
        }
    }
    assert_eq!(probes, 15);
    assert_eq!(acts.last(), Some(&Action::Stop { reason: StopReason::Safety }));
}

#[test]
fn corner_check_waits_a_hundred_milliseconds() {
    let mut c = Clicker::start(plan(0, 0, 0, 0), None, true, 0);
    let corner = CursorSample { x: 0, y: 0, screen_width: 1920, screen_height: 1080 };
    let acts = run(
        &mut c,
        |i| Observation { safety_enabled: true, cursor: Some(corner), ..obs(i as u64 * 30_000) },
        300,
    );
    assert_eq!(acts.iter().filter(|a| **a == Action::ProbeCursor).count(), 0);
}

#[test]
fn corners_are_within_five_pixels() {
    let s = |x, y| CursorSample { x, y, screen_width: 1920, screen_height: 1080 };
    assert!(is_in_corner(&s(5, 5)));
    assert!(is_in_corner(&s(1915, 0)));
    assert!(is_in_corner(&s(0, 1075)));
    assert!(is_in_corner(&s(2000, 2000)));
    assert!(!is_in_corner(&s(6, 0)));
    assert!(!is_in_corner(&s(960, 1079)));
}

#[test]
fn standard_wait_sleeps_then_spins() {
    let p = plan(0, 0, 0, 100);
    let mut c = Clicker::start(p, None, true, 1_000);
    let mut acts = Vec::new();
    for i in 0..8u64 {
        let tsc = if i < 6 { 1_000 } else { 1_000 + 300_000_000 };
        acts.push(c.step(&obs(tsc)));
    }
    assert_eq!(
        acts,
        vec![
            Action::SendClick,
            Action::Proceed,
            Action::PublishClickCount { count: 1 },
            Action::Proceed,
            Action::Sleep { nanos: 99_500_000 },
            Action::Proceed,
            Action::Proceed,
            Action::Proceed,
        ]
    );
}

#[test]
fn random_wait_adds_the_draw() {
    let p = plan_clicker(0, 0, 0, 100, true, 40, false, 0, false, u128::MAX, false, 0, 0, false, 0, 0, 0, 0);
    let mut c = Clicker::start(p, Some(FastRng::from_seed(42)), true, 0);
    let mut sleeps = Vec::new();
    for _ in 0..6 {
        if let Action::Sleep { nanos } = c.step(&obs(0)) {
            sleeps.push(nanos);
        }
    }
    assert_eq!(sleeps, vec![100_000_000 - 33_139_553 - 500_000]);
}

#[test]
fn high_precision_wait_spins_until_the_target() {
    let p = plan(0, 0, 0, 20);
    let mut c = Clicker::start(p, None, true, 0);
    for _ in 0..4 {
        c.step(&obs(0));
    }
    assert_eq!(c.step(&obs(0)), Action::Sleep { nanos: 20_000_000 });
    assert_eq!(c.step(&obs(0)), Action::Proceed);
    assert_eq!(c.step(&obs(10)), Action::Relax);
    assert_eq!(c.step(&obs(60_000_000)), Action::Proceed);
    assert_eq!(c.step(&obs(60_000_000)), Action::Proceed);
    assert_eq!(c.step(&obs(60_000_000)), Action::SendClick);
}

#[test]
fn negative_random_wait_overflows() {
    let p = plan_clicker(0, 0, 0, 10, true, 40, false, 0, false, u128::MAX, false, 0, 0, false, 0, 0, 0, 0);
    let mut c = Clicker::start(p, Some(FastRng::from_seed(1)), true, 0);
    assert_eq!(c.step(&obs(0)), Action::SendClick);
    assert_eq!(c.step(&obs(0)), Action::Proceed);
    assert_eq!(c.step(&obs(0)), Action::PublishClickCount { count: 1 });
    assert_eq!(c.step(&obs(0)), Action::Overflow);
    assert_eq!(c.step(&obs(0)), Action::Finish);
}

#[test]
fn positive_random_wait_is_kept() {
    let p = plan_clicker(0, 0, 0, 100, true, 40, false, 0, false, u128::MAX, false, 0, 0, false, 0, 0, 0, 0);
    let mut c = Clicker::start(p, Some(FastRng::from_seed(0)), true, 0);
    for _ in 0..4 {
        c.step(&obs(0));
    }
    assert_eq!(c.step(&obs(0)), Action::Sleep { nanos: 100_000_000 + 28_335_423 - 500_000 });
}

#[test]
fn double_click_waits_fifty_milliseconds() {
    let p = plan_clicker(0, 0, 0, 0, false, 0, false, 0, false, u128::MAX, false, 0, 1, false, 0, 0, 0, 0);
    let mut c = Clicker::start(p, None, true, 0);
    assert_eq!(c.step(&obs(0)), Action::SendClick);
    assert_eq!(c.step(&obs(0)), Action::Proceed);
    assert_eq!(c.step(&obs(3)), Action::Relax);
    assert_eq!(c.step(&obs(149_999_999)), Action::Relax);
    assert_eq!(c.step(&obs(150_000_000)), Action::SendClick);
    assert_eq!(c.step(&obs(150_000_000)), Action::PublishClickCount { count: 1 });
}

#[test]
fn negative_random_offset_is_not_instant() {
    let p = plan_clicker(0, 0, 0, 0, true, -5, false, 0, false, u128::MAX, false, 0, 0, false, 0, 0, 0, 0);
    assert!(!p.instant);
    assert!(!p.randomize);
    let mut c = Clicker::start(p, Some(FastRng::from_seed(3)), true, 0);
    let acts = run(&mut c, |_| obs(0), 1200);
    assert!(acts.iter().all(|a| *a != Action::Yield));
    assert!(plan(0, 0, 0, 0).instant);
}

#[test]
fn standard_sleep_ends_before_the_deadline() {
    let p = plan(0, 0, 0, 100);
    let mut c = Clicker::start(p, None, true, 1_000);
    for _ in 0..4 {
        c.step(&obs(1_000));
    }
    // 50 ms of the 100 ms wait are gone: sleep what remains, less 0.5 ms.
    assert_eq!(c.step(&obs(1_000 + 150_000_000)), Action::Sleep { nanos: 49_500_000 });
}

#[test]
fn standard_wait_with_less_than_half_a_millisecond_left_only_spins() {
    let p = plan(0, 0, 0, 100);
    let mut c = Clicker::start(p, None, true, 0);
    for _ in 0..4 {
        c.step(&obs(0));
    }
    assert_eq!(c.step(&obs(299_000_000)), Action::Proceed);
}
