use vstd::prelude::*;

verus! {

/// Relies on `SystemTime::now` and `SystemTime::duration_since(UNIX_EPOCH)`:
/// whole seconds since the Unix epoch, `None` for a clock set before it.
/// The value depends on the time of the call; nothing more is promised.
#[verifier::external_body]
fn unix_seconds() -> (r: Option<u64>) {
    std::time::SystemTime::now().duration_since(std::time::UNIX_EPOCH).ok().map(|d| d.as_secs())
}

/// The UTC clock.
pub struct Utc;

/// A point in time, in whole seconds since the Unix epoch.
pub struct DateTime(i64);

/// A signed span of time, in whole seconds.
pub struct Duration(i64);

impl View for DateTime {
    type V = int;

    closed spec fn view(&self) -> int {
        self.0 as int
    }
}

impl View for Duration {
    type V = int;

    closed spec fn view(&self) -> int {
        self.0 as int
    }
}

impl Utc {
    /// The current time, read from the system clock.
    pub fn now() -> (r: DateTime)
        ensures
            r@ >= 0,
    {
        DateTime::from_clock_reading(unix_seconds())
    }
}

/// The point a clock reading stands for: whole seconds since the epoch,
/// held at the largest representable second; a clock set before the epoch
/// reads as the epoch itself.
pub open spec fn reading_to_secs(reading: Option<u64>) -> int {
    match reading {
        Some(s) => if s > i64::MAX as u64 { i64::MAX as int } else { s as int },
        None => 0,
    }
}

impl DateTime {
    /// The point a clock reading in whole seconds since the epoch stands for.
    pub fn from_clock_reading(reading: Option<u64>) -> (r: DateTime)
        ensures
            r@ == reading_to_secs(reading),
    {
        match reading {
            Some(secs) => if secs > i64::MAX as u64 {
                DateTime(i64::MAX)
            } else {
                DateTime(secs as i64)
            },
            None => DateTime(0),
        }
    }

    /// The point `secs` seconds after the epoch.
    pub fn from_timestamp(secs: i64) -> (r: DateTime)
        ensures
            r@ == secs as int,
    {
        DateTime(secs)
    }

    /// This point moved by `dur`, or `None` when that leaves the range.
    pub fn checked_add_signed(&self, dur: Duration) -> (r: Option<DateTime>)
        ensures
            r is Some <==> i64::MIN <= self@ + dur@ <= i64::MAX,
            r matches Some(t) ==> t@ == self@ + dur@,
    {
        match self.0.checked_add(dur.0) {
            Some(s) => Some(DateTime(s)),
            None => None,
        }
    }

    /// Seconds since the epoch.
    pub fn timestamp(&self) -> (r: i64)
        ensures
            r as int == self@,
    {
        self.0
    }
}

impl Duration {
    /// A span of `h` hours.
    pub fn hours(h: i64) -> (r: Duration)
        requires
            i64::MIN <= h * 3600 <= i64::MAX,
        ensures
            r@ == h * 3600,
    {
        Duration(h * 3600)
    }
}

} // verus!
