//! The history selector of the read-only query surface.
use vstd::prelude::*;

verus! {

/// Which readings of a device a query asks for.
#[derive(Clone, Copy, Debug, PartialEq, Eq, Structural)]
pub enum LastReading {
    /// The latest reading only.
    Last,
    /// The hourly readings of the last 24 hours.
    Hours24,
    /// The hourly readings of the last 7 days.
    Days7,
}

/// The query parameters of a history request.
#[derive(Clone, Copy, Debug, PartialEq, Eq, Structural)]
pub struct LastReadingSelect {
    pub select: LastReading,
}

/// Milliseconds in one day.
pub const DAY_MS: i64 = 86_400_000;

/// How far back a history selector reaches, in milliseconds; the latest
/// reading has no window.
pub open spec fn window_ms(sel: LastReading) -> Option<int> {
    match sel {
        LastReading::Last => None,
        LastReading::Hours24 => Some(DAY_MS as int),
        LastReading::Days7 => Some(7 * DAY_MS),
    }
}

impl LastReading {
    /// The instant after which hourly readings are returned for a query at
    /// `now_ms`, or `None` for the latest-reading selector.
    pub fn history_start(self, now_ms: i64) -> (r: Option<i64>)
        requires
            now_ms >= i64::MIN + 7 * DAY_MS,
        ensures
            match window_ms(self) {
                Some(w) => r == Some((now_ms - w) as i64),
                None => r is None,
            },
    {
        match self {
            LastReading::Last => None,
            LastReading::Hours24 => Some(now_ms - DAY_MS),
            LastReading::Days7 => Some(now_ms - 7 * DAY_MS),
        }
    }
}

} // verus!
