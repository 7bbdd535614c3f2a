//! Time-range and filter configuration for the fetch action.

use vstd::prelude::*;

verus! {

/// What kind of time range is selected.
#[derive(Debug, Clone, Copy, PartialEq, Eq)]
pub enum TimeRangeKind {
    Last5m,
    Last15m,
    Last1h,
    Custom,
}

/// Configuration for time range selection.
#[derive(Debug, Clone)]
pub struct TimeRangeConfig {
    pub kind: TimeRangeKind,
    /// Value for the `Custom` kind, e.g. 30 seconds or 10 minutes.
    pub custom_value: u64,
    /// Whether `custom_value` counts minutes rather than seconds.
    pub custom_is_minutes: bool,
}

impl Default for TimeRangeConfig {
    /// The last five minutes.
    fn default() -> (d: Self)
        ensures
            d.kind == TimeRangeKind::Last5m,
            d.custom_value == 5,
            d.custom_is_minutes,
    {
        TimeRangeConfig { kind: TimeRangeKind::Last5m, custom_value: 5, custom_is_minutes: true }
    }
}

/// The seconds of lookback a custom selection denotes: the value scaled to
/// seconds with saturation, never less than one second.
pub open spec fn spec_custom_lookback_secs(value: u64, is_minutes: bool) -> int {
    let secs: int = if is_minutes {
        if value * 60 > u64::MAX {
            u64::MAX as int
        } else {
            value * 60
        }
    } else {
        value as int
    };
    if secs < 1 {
        1
    } else {
        secs
    }
}

impl TimeRangeConfig {
    /// The lookback, in seconds, that the current selection denotes.
    pub fn lookback_duration(&self) -> (r: u64)
        ensures
            self.kind == TimeRangeKind::Last5m ==> r == 300,
            self.kind == TimeRangeKind::Last15m ==> r == 900,
            self.kind == TimeRangeKind::Last1h ==> r == 3600,
            self.kind == TimeRangeKind::Custom ==> r == spec_custom_lookback_secs(
                self.custom_value,
                self.custom_is_minutes,
            ),
    {
        match self.kind {
            TimeRangeKind::Last5m => 300,
            TimeRangeKind::Last15m => 900,
            TimeRangeKind::Last1h => 3600,
            TimeRangeKind::Custom => {
                let secs: u64 = if self.custom_is_minutes {
                    match self.custom_value.checked_mul(60) {
                        Some(s) => s,
                        None => u64::MAX,
                    }
                } else {
                    self.custom_value
                };
                if secs < 1 {
                    1
                } else {
                    secs
                }
            },
        }
    }
}

/// Combined filter configuration: text plus time range.
#[derive(Debug, Clone)]
pub struct FilterConfig {
    pub filter_text: String,
    pub time_range: TimeRangeConfig,
}

impl Default for FilterConfig {
    /// No filter text, over the last five minutes.
    fn default() -> (d: Self)
        ensures
            d.filter_text@ == Seq::<char>::empty(),
            d.time_range.kind == TimeRangeKind::Last5m,
            d.time_range.custom_value == 5,
            d.time_range.custom_is_minutes,
    {
        FilterConfig { filter_text: String::new(), time_range: TimeRangeConfig::default() }
    }
}

} // verus!
