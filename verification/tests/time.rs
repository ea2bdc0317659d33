use hex_tactics::time::{advance_game_time, CurrentTimePoint, TimePoint};

fn clock(day: u32, hours: u32, minutes: u32, seconds: u32) -> CurrentTimePoint {
    CurrentTimePoint(TimePoint { hours, minutes, seconds, day })
}

#[test]
fn one_second_of_play_is_a_minute_on_the_clock() {
    let mut now = clock(1, 8, 0, 0);
    advance_game_time(&mut now, 60);
    assert_eq!(now, clock(1, 8, 1, 0));
}

#[test]
fn no_time_leaves_the_clock_as_it_is() {
    let mut now = clock(1, 8, 30, 15);
    advance_game_time(&mut now, 0);
    assert_eq!(now, clock(1, 8, 30, 15));
}

#[test]
fn seconds_carry_into_minutes() {
    let mut now = clock(1, 8, 0, 45);
    advance_game_time(&mut now, 20);
    assert_eq!(now, clock(1, 8, 1, 5));
}

#[test]
fn minutes_carry_into_hours() {
    let mut now = clock(1, 8, 59, 59);
    advance_game_time(&mut now, 1);
    assert_eq!(now, clock(1, 9, 0, 0));
}

#[test]
fn hours_carry_into_days() {
    let mut now = clock(1, 23, 59, 59);
    advance_game_time(&mut now, 1);
    assert_eq!(now, clock(2, 0, 0, 0));
}

#[test]
fn hours_minutes_and_seconds_at_once() {
    let mut now = clock(3, 10, 20, 30);
    advance_game_time(&mut now, 2 * 3600 + 45 * 60 + 50);
    assert_eq!(now, clock(3, 13, 6, 20));
}

#[test]
fn whole_days_are_not_counted() {
    let mut now = clock(1, 8, 0, 0);
    advance_game_time(&mut now, 86_400 + 5);
    assert_eq!(now, clock(1, 8, 0, 5));
    advance_game_time(&mut now, 3 * 86_400 + 16 * 3600);
    assert_eq!(now, clock(2, 0, 0, 5));
}

#[test]
fn the_longest_tick() {
    let mut now = clock(0, 23, 59, 59);
    advance_game_time(&mut now, u32::MAX);
    // u32::MAX seconds are 49710 days, 6 hours, 28 minutes and 15 seconds.
    assert_eq!(now, clock(1, 6, 28, 14));
}
