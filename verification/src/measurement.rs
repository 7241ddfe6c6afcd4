//! Fixed-point measurement values.
//!
//! The sensor reports temperature (degrees Celsius), humidity (percent
//! relative humidity) and pressure (pascals) as real numbers. The display
//! rules only ever look at a reading through truncation toward zero and one
//! rounded decimal digit, so the core models a reading as a signed
//! fixed-point number in thousandths of a unit. The runtime layer converts
//! each raw reading once at the boundary; everything after that point is
//! exact integer arithmetic.

use vstd::prelude::*;

verus! {

/// A signed fixed-point number: `mag` thousandths of a unit, negated when
/// `neg` is set. A reading of 23.7 degrees is `Milli { neg: false, mag: 23700 }`.
/// Every combination of the two fields is a valid value (`neg` with a zero
/// magnitude is another spelling of zero).
#[derive(Copy, Clone, PartialEq, Eq, Structural, Debug)]
pub struct Milli {
    pub neg: bool,
    pub mag: u64,
}

/// Truncation toward zero of `v / d` (for positive `d`), as the hardware
/// integer division does it: `-2740 / 1000` is `-2`, not `-3`.
pub open spec fn spec_trunc_div(v: int, d: int) -> int {
    if v >= 0 {
        v / d
    } else {
        -((-v) / d)
    }
}

impl Milli {
    /// The value in thousandths of a unit.
    pub open spec fn value(self) -> int {
        if self.neg {
            -(self.mag as int)
        } else {
            self.mag as int
        }
    }

    /// The whole part of the value, truncated toward zero.
    pub open spec fn spec_whole(self) -> int {
        spec_trunc_div(self.value(), 1000)
    }

    /// The first decimal digit of the value's absolute fractional part,
    /// rounded half away from zero and clamped to a single digit. A
    /// fractional part of .95 or more rounds up to 10 and is clamped to 9
    /// rather than carried into the whole part.
    pub open spec fn spec_frac_tenths(self) -> int {
        let frac_milli = (self.mag as int) % 1000;
        if (frac_milli + 50) / 100 > 9 {
            9
        } else {
            (frac_milli + 50) / 100
        }
    }

    /// The value `mag / 1000`, negative when `neg` is set.
    pub fn new(neg: bool, mag: u64) -> (r: Milli)
        ensures
            r.neg == neg,
            r.mag == mag,
    {
        Milli { neg, mag }
    }

    /// Whether the reading is strictly negative.
    pub fn is_negative(&self) -> (r: bool)
        ensures
            r <==> self.value() < 0,
    {
        self.neg && self.mag > 0
    }

    /// The whole part, truncated toward zero.
    pub fn whole(&self) -> (w: i64)
        ensures
            w == self.spec_whole(),
    {
        let q = self.mag / 1000;
        if self.neg {
            -(q as i64)
        } else {
            q as i64
        }
    }

    /// The rounded first decimal digit of the absolute fractional part.
    pub fn frac_tenths(&self) -> (d: u64)
        ensures
            d == self.spec_frac_tenths(),
            d <= 9,
    {
        let frac_milli = self.mag % 1000;
        let rounded = (frac_milli + 50) / 100;
        if rounded > 9 {
            9
        } else {
            rounded
        }
    }
}

/// One snapshot from the sensor: produced fresh on each successful read and
/// discarded after formatting.
#[derive(Copy, Clone, PartialEq, Eq, Structural, Debug)]
pub struct Measurement {
    /// Temperature in thousandths of a degree Celsius.
    pub temperature: Milli,
    /// Relative humidity in thousandths of a percent.
    pub humidity: Milli,
    /// Pressure in thousandths of a pascal.
    pub pressure: Milli,
}

} // verus!
