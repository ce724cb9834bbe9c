//! Readings of the lightning and rain sensors as the metrics endpoint exports them,
//! and the state of the station's web server.

use vstd::prelude::*;

verus! {

/// State shared by the handlers of the station's web server (none so far).
pub struct AppState {}

/// Lightning strikes detected in the past 10 minutes.
#[derive(Clone, Copy, Debug, PartialEq, Eq, Structural)]
pub struct Lightning {
    /// Number of strikes in the last 10 minutes
    pub strikes: i64,
    /// Distance to the closest strike in km, if any (+/- 1km)
    pub closest_distance: Option<i64>,
    /// Average strike distance in km, if any (+/- 1km)
    pub average_distance: Option<i64>,
    /// Farthest strike distance in km, if any (+/- 1km)
    pub farthest_distance: Option<i64>,
}

/// Whether the rain sensor is wet.
#[derive(Clone, Copy, Debug, PartialEq, Eq, Structural)]
pub struct Wetness {
    /// Is the rain sensor wet?
    pub is_wet: bool,
}

/// The value that a distance gauge shows: the distance, or -1 when there is none.
pub open spec fn distance_gauge(distance: Option<i64>) -> i64 {
    match distance {
        Some(d) => d,
        None => -1i64,
    }
}

impl Lightning {
    /// The values of the closest, average and farthest distance gauges.
    pub fn distance_gauges(&self) -> (g: (i64, i64, i64))
        ensures
            g == (
                distance_gauge(self.closest_distance),
                distance_gauge(self.average_distance),
                distance_gauge(self.farthest_distance),
            ),
    {
        (
            self.closest_distance.unwrap_or(-1),
            self.average_distance.unwrap_or(-1),
            self.farthest_distance.unwrap_or(-1),
        )
    }
}

impl Wetness {
    /// The value of the wetness gauge: 1 when wet, 0 when dry.
    pub fn gauge_value(&self) -> (v: i64)
        ensures
            v == if self.is_wet {
                1i64
            } else {
                0i64
            },
    {
        if self.is_wet {
            1
        } else {
            0
        }
    }
}

} // verus!
