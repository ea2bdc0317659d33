//! The game clock: a day count and a time of day.

use vstd::prelude::*;

verus! {

/// Seconds in a minute.
pub const SECONDS_PER_MINUTE: u32 = 60;

/// Minutes in an hour.
pub const MINUTES_PER_HOUR: u32 = 60;

/// Hours in a day.
pub const HOURS_PER_DAY: u32 = 24;

/// Seconds in a day.
pub const SECONDS_PER_DAY: u32 = 86_400;

/// A moment of game time.
#[derive(Debug, Clone, Copy, PartialEq, Eq, Structural)]
pub struct TimePoint {
    pub hours: u32,
    pub minutes: u32,
    pub seconds: u32,
    pub day: u32,
}

/// The present moment of game time.
#[derive(Debug, Clone, Copy, PartialEq, Eq, Structural)]
pub struct CurrentTimePoint(pub TimePoint);

impl TimePoint {
    /// Whether the time of day is one that a clock shows.
    pub open spec fn is_valid(self) -> bool {
        &&& self.hours < HOURS_PER_DAY
        &&& self.minutes < MINUTES_PER_HOUR
        &&& self.seconds < SECONDS_PER_MINUTE
    }

    /// The seconds from the start of day zero to this moment.
    pub open spec fn stamp(self) -> int {
        ((self.day * HOURS_PER_DAY + self.hours) * MINUTES_PER_HOUR + self.minutes)
            * SECONDS_PER_MINUTE + self.seconds
    }
}

/// Moves the clock on by `total_ingame_seconds` seconds of game time.
///
/// The clock advances by less than a day at a time: whole days in
/// `total_ingame_seconds` are not counted, only what remains of them.
pub fn advance_game_time(current_time: &mut CurrentTimePoint, total_ingame_seconds: u32)
    requires
        old(current_time).0.is_valid(),
        old(current_time).0.day < u32::MAX,
    ensures
        final(current_time).0.is_valid(),
        final(current_time).0.stamp() == old(current_time).0.stamp() + total_ingame_seconds
            % SECONDS_PER_DAY,
{
    let mut total_ingame_seconds = total_ingame_seconds;
    let ghost total = total_ingame_seconds as int;
    let mut tp = current_time.0;

    tp.seconds += total_ingame_seconds % 60;
    if tp.seconds >= 60 {
        tp.seconds -= 60;
        tp.minutes += 1;
    }
    total_ingame_seconds /= 60;
    tp.minutes += total_ingame_seconds % 60;
    if tp.minutes >= 60 {
        tp.minutes -= 60;
        tp.hours += 1;
    }
    total_ingame_seconds /= 60;
    tp.hours += total_ingame_seconds % 24;
    if tp.hours >= 24 {
        tp.hours -= 24;
        tp.day += 1;
    }
    assert(total % 86_400 == (total % 60) + 60 * ((total / 60) % 60) + 3600 * ((total / 60 / 60)
        % 24)) by {
        lemma_seconds_of_day(total);
    }
    current_time.0 = tp;
}

/// The seconds within a day split into seconds, minutes and hours.
proof fn lemma_seconds_of_day(total: int)
    requires
        0 <= total,
    ensures
        total % 86_400 == (total % 60) + 60 * ((total / 60) % 60) + 3600 * ((total / 60 / 60)
            % 24),
{
    let minutes = total / 60;
    let hours = minutes / 60;
    let days = hours / 24;
    assert(total == 60 * minutes + total % 60);
    assert(minutes == 60 * hours + minutes % 60);
    assert(hours == 24 * days + hours % 24);
    let rest = (total % 60) + 60 * (minutes % 60) + 3600 * (hours % 24);
    assert(total == 86_400 * days + rest);
    assert(0 <= rest < 86_400);
    assert(total % 86_400 == rest) by {
        vstd::arithmetic::div_mod::lemma_fundamental_div_mod_converse(total, 86_400, days, rest);
    }
}

} // verus!
