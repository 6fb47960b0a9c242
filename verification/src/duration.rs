//! A span of time counted in microseconds.
//!
//! The media-player protocol measures track lengths and positions in
//! microseconds carried as 64-bit integers; this type holds that count
//! directly.

use vstd::prelude::*;

verus! {

/// A signed span of time, in microseconds.
#[derive(Clone, Copy, Debug, PartialEq, Eq, Structural)]
pub struct Duration {
    pub microseconds: i64,
}

/// The number of whole seconds in `micros` microseconds, truncated
/// towards zero.
pub open spec fn whole_seconds_spec(micros: i64) -> int {
    if micros >= 0 {
        micros / 1_000_000
    } else {
        -((-(micros as int)) / 1_000_000)
    }
}

impl Duration {
    /// A duration of exactly `micros` microseconds.
    pub fn microseconds(micros: i64) -> (r: Duration)
        ensures
            r.microseconds == micros,
    {
        Duration { microseconds: micros }
    }

    /// The number of microseconds in the duration.
    pub fn whole_microseconds(&self) -> (r: i64)
        ensures
            r == self.microseconds,
    {
        self.microseconds
    }

    /// The number of whole seconds in the duration, truncated towards zero.
    pub fn whole_seconds(&self) -> (r: i64)
        ensures
            r == whole_seconds_spec(self.microseconds),
    {
        if self.microseconds >= 0 {
            let q = (self.microseconds as u64) / 1_000_000;
            q as i64
        } else {
            let mag = ((-(self.microseconds as i128)) as u128) as u64;
            let q = mag / 1_000_000;
            assert(q <= 0x8000_0000_0000_0000u64) by (nonlinear_arith)
                requires
                    q == mag / 1_000_000,
                    mag <= 0x8000_0000_0000_0000u64,
            {}
            if q == 0x8000_0000_0000_0000 {
                assert(false) by (nonlinear_arith)
                    requires
                        q == mag / 1_000_000,
                        q == 0x8000_0000_0000_0000u64,
                        mag <= 0x8000_0000_0000_0000u64,
                {}
                i64::MIN
            } else {
                -(q as i64)
            }
        }
    }
}

} // verus!
