//! Time-of-day windows: a boundary pair of hour/minute timestamps and the
//! membership test, including windows that wrap past midnight.

use vstd::prelude::*;

verus! {

/// A configured window boundary: a time of day with minute resolution.
#[derive(Clone, Copy, Debug)]
pub struct Timestamp {
    pub hour: u8,
    pub minute: u8,
}

impl Timestamp {
    /// A valid time of day: hours below 24, minutes below 60.
    pub open spec fn wf(self) -> bool {
        self.hour <= 23 && self.minute <= 59
    }

    /// The boundary as seconds since midnight.
    pub open spec fn as_seconds(self) -> int {
        self.hour * 3600 + self.minute * 60
    }
}

/// A full-resolution time of day, as seconds since midnight.
#[derive(Clone, Copy, Debug)]
pub struct TimeOfDay {
    pub seconds: u32,
}

impl TimeOfDay {
    /// A valid time of day lies strictly below 24 hours.
    pub open spec fn wf(self) -> bool {
        self.seconds < 86400
    }

    pub fn from_hms(hour: u8, minute: u8, second: u8) -> (t: TimeOfDay)
        requires
            hour <= 23,
            minute <= 59,
            second <= 59,
        ensures
            t.wf(),
            t.seconds == hour * 3600 + minute * 60 + second,
    {
        TimeOfDay { seconds: hour as u32 * 3600 + minute as u32 * 60 + second as u32 }
    }
}

/// A window wraps past midnight when its end boundary is numerically earlier
/// than its start boundary.
pub open spec fn window_wraps(start: Timestamp, end: Timestamp) -> bool {
    end.as_seconds() < start.as_seconds()
}

/// Window membership. A normal window is `[start, end)`; a wrapping window is
/// the complement of the gap `[end, start)`.
pub open spec fn spec_between(start: Timestamp, end: Timestamp, now: int) -> bool {
    if window_wraps(start, end) {
        !(end.as_seconds() <= now < start.as_seconds())
    } else {
        start.as_seconds() <= now < end.as_seconds()
    }
}

impl Timestamp {
    /// Decide whether `t` falls inside the daily window from `start` to `end`,
    /// start inclusive, end exclusive; when the window crosses midnight the
    /// test is the negation of the gap `[end, start)`.
    pub fn between(start: &Timestamp, end: &Timestamp, t: &TimeOfDay) -> (r: bool)
        requires
            start.wf(),
            end.wf(),
            t.wf(),
        ensures
            r == spec_between(*start, *end, t.seconds as int),
    {
        let start_s: u32 = start.hour as u32 * 3600 + start.minute as u32 * 60;
        let end_s: u32 = end.hour as u32 * 3600 + end.minute as u32 * 60;
        if end_s < start_s {
            !(end_s <= t.seconds && t.seconds < start_s)
        } else {
            start_s <= t.seconds && t.seconds < end_s
        }
    }
}

/// A recurring daily window during which a source should be active.
#[derive(Clone, Copy, Debug)]
pub struct ActiveInterval {
    pub start: Timestamp,
    pub end: Timestamp,
}

impl ActiveInterval {
    pub open spec fn wf(self) -> bool {
        self.start.wf() && self.end.wf()
    }

    /// Whether the time `now` (seconds since midnight) lies in this window.
    pub open spec fn contains(self, now: int) -> bool {
        spec_between(self.start, self.end, now)
    }
}

/// Law: a non-wrapping window is true exactly on `[start, end)`: true at
/// `start`, false at `end`, and false everywhere outside.
pub proof fn lemma_between_non_wrapping(start: Timestamp, end: Timestamp, now: int)
    requires
        start.as_seconds() < end.as_seconds(),
    ensures
        spec_between(start, end, now) == (start.as_seconds() <= now && now < end.as_seconds()),
        spec_between(start, end, start.as_seconds()),
        !spec_between(start, end, end.as_seconds()),
{
}

/// Law: a wrapping window (`end` earlier than `start`) is the exact logical
/// negation of the same boundaries read as a normal window: membership is
/// everything except the gap `[end, start)`.
pub proof fn lemma_between_wrapping_complement(start: Timestamp, end: Timestamp, now: int)
    requires
        end.as_seconds() < start.as_seconds(),
    ensures
        spec_between(start, end, now) == !spec_between(end, start, now),
{
}

} // verus!
