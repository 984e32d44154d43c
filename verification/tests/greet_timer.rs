use bevy::time::{Timer, TimerMode};
use hello_plugin::{GreetTimer, HelloPlugin, GREET_DELAY_NANOS};
use std::time::Duration;

fn duration(nanos: u128) -> Duration {
    Duration::new((nanos / 1_000_000_000) as u64, (nanos % 1_000_000_000) as u32)
}

#[test]
fn the_delay_is_two_seconds() {
    assert_eq!(GREET_DELAY_NANOS, 2_000_000_000);
    assert_eq!(Duration::from_nanos(GREET_DELAY_NANOS), Duration::from_secs(2));
}

#[test]
fn a_new_timer_has_counted_nothing() {
    let timer = GreetTimer::new();
    assert_eq!(timer.elapsed_nanos(), 0);
    assert!(!timer.finished());
    assert!(!timer.just_finished());
}

#[test]
fn the_plugin_builds_a_new_timer() {
    let mut timer = HelloPlugin.build();
    assert_eq!(timer.elapsed_nanos(), 0);
    assert!(!timer.finished());
    assert!(!timer.just_finished());
    assert!(!timer.tick(1_999_999_999));
    assert!(timer.tick(1));
}

#[test]
fn a_tick_short_of_the_delay_adds_its_time() {
    let mut timer = GreetTimer::new();
    assert!(!timer.tick(750_000_000));
    assert_eq!(timer.elapsed_nanos(), 750_000_000);
    assert!(!timer.tick(250_000_001));
    assert_eq!(timer.elapsed_nanos(), 1_000_000_001);
    assert!(!timer.finished());
    assert!(!timer.just_finished());
}

#[test]
fn the_delay_is_reached_on_its_last_nanosecond() {
    let mut timer = GreetTimer::new();
    assert!(!timer.tick(1_999_999_999));
    assert_eq!(timer.elapsed_nanos(), 1_999_999_999);
    assert!(!timer.finished());
    assert!(timer.tick(1));
    assert_eq!(timer.elapsed_nanos(), 2_000_000_000);
    assert!(timer.finished());
    assert!(timer.just_finished());
}

#[test]
fn two_frames_of_one_second_reach_the_delay() {
    let mut timer = GreetTimer::new();
    assert!(!timer.tick(1_000_000_000));
    assert!(timer.tick(1_000_000_000));
}

#[test]
fn a_frame_of_exactly_the_delay_reaches_it() {
    let mut timer = GreetTimer::new();
    assert!(timer.tick(2_000_000_000));
    assert_eq!(timer.elapsed_nanos(), GREET_DELAY_NANOS);
}

#[test]
fn time_beyond_the_delay_is_not_counted() {
    let mut timer = GreetTimer::new();
    assert!(!timer.tick(1_500_000_000));
    assert!(timer.tick(1_500_000_000));
    assert_eq!(timer.elapsed_nanos(), 2_000_000_000);
    assert!(!timer.tick(1_500_000_000));
    assert_eq!(timer.elapsed_nanos(), 2_000_000_000);
}

#[test]
fn frames_without_time_do_not_count() {
    let mut timer = GreetTimer::new();
    for _ in 0..100 {
        assert!(!timer.tick(0));
    }
    assert_eq!(timer.elapsed_nanos(), 0);
    assert!(!timer.tick(1_999_999_999));
    assert!(!timer.tick(0));
    assert!(timer.tick(1));
    assert!(!timer.tick(0));
    assert!(timer.finished());
}

#[test]
fn the_mark_lasts_for_one_tick() {
    let mut timer = GreetTimer::new();
    assert!(timer.tick(2_000_000_000));
    assert!(timer.just_finished());
    assert!(!timer.tick(0));
    assert!(!timer.just_finished());
    assert!(timer.finished());
}

#[test]
fn a_finished_timer_stays_as_it_is() {
    let mut timer = GreetTimer::new();
    assert!(timer.tick(3_000_000_000));
    for delta in [0, 1, 1_999_999_999, 2_000_000_000, 2_000_000_001, u128::MAX] {
        assert!(!timer.tick(delta));
        assert_eq!(timer.elapsed_nanos(), 2_000_000_000);
        assert!(timer.finished());
        assert!(!timer.just_finished());
    }
}

#[test]
fn the_longest_frame_a_timer_takes_reaches_the_delay() {
    let mut timer = GreetTimer::new();
    assert!(!timer.tick(1_999_999_999));
    assert!(timer.tick(u64::MAX as u128));
    assert_eq!(timer.elapsed_nanos(), 2_000_000_000);
    assert!(!timer.tick(u64::MAX as u128));
}

#[test]
fn a_frame_longer_than_a_timer_takes_reaches_the_delay() {
    let mut timer = GreetTimer::new();
    assert!(timer.tick(u64::MAX as u128 + 1));
    assert_eq!(timer.elapsed_nanos(), 2_000_000_000);
    let mut timer = GreetTimer::new();
    assert!(!timer.tick(1));
    assert!(timer.tick(u128::MAX));
    assert_eq!(timer.elapsed_nanos(), 2_000_000_000);
    assert!(!timer.tick(u128::MAX));
}

#[test]
fn a_run_of_frames_reaches_the_delay_in_exactly_one_of_them() {
    let mut timer = GreetTimer::new();
    let mut reached = Vec::new();
    for frame in 0..10 {
        if timer.tick(500_000_000) {
            reached.push(frame);
        }
    }
    assert_eq!(reached, vec![3]);
}

#[test]
fn a_run_that_falls_short_never_reaches_the_delay() {
    let mut timer = GreetTimer::new();
    for _ in 0..1999 {
        assert!(!timer.tick(1_000_000));
    }
    assert_eq!(timer.elapsed_nanos(), 1_999_000_000);
    assert!(!timer.finished());
}

#[test]
fn timers_do_not_share_their_time() {
    let mut first = HelloPlugin.build();
    let mut second = HelloPlugin.build();
    assert!(!first.tick(1_500_000_000));
    assert!(!second.tick(400_000_000));
    assert!(first.tick(500_000_000));
    assert!(!second.tick(500_000_000));
    assert_eq!(second.elapsed_nanos(), 900_000_000);
    assert!(second.tick(1_100_000_000));
}

#[test]
fn every_tick_agrees_with_a_two_second_one_shot_timer() {
    let deltas: [u128; 13] = [
        0,
        16_666_667,
        16_666_667,
        900_000_000,
        1,
        1_000_000_000,
        66_666_664,
        1,
        0,
        5_000_000_000,
        16_666_667,
        u64::MAX as u128,
        u64::MAX as u128 * 1_000,
    ];
    for skip in 0..deltas.len() {
        let mut timer = GreetTimer::new();
        let mut same = Timer::from_seconds(2.0, TimerMode::Once);
        for delta in &deltas[skip..] {
            let reached = timer.tick(*delta);
            same.tick(duration(*delta));
            assert_eq!(reached, same.just_finished());
            assert_eq!(timer.just_finished(), same.just_finished());
            assert_eq!(timer.finished(), same.finished());
            assert_eq!(timer.elapsed_nanos() as u128, same.elapsed().as_nanos());
        }
    }
}
