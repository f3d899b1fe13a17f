//! Lengths in millimeters: saturating steps and tolerance-based comparison.

use vstd::prelude::*;

use core::cmp::Ordering;

use crate::calibration::{transform_points, transform_spec};
use crate::points::Point;

verus! {

/// Tolerance for deciding whether the column already stands at a target.
pub const STANDSTILL_TOLERANCE_MM: u16 = 2;

/// Looser tolerance used while the column moves towards a target, so that the
/// drive does not chatter around it.
pub const MOVEMENT_TOLERANCE_MM: u16 = 18;

/// Scale of the fixed-point factors of the straight-line sensor model.
pub const LINEAR_SCALE: u64 = 256;

/// Slope of the straight-line sensor model, in millimeters per reading, times
/// `LINEAR_SCALE`.
pub const LINEAR_SLOPE: u64 = 47;

/// Offset of the straight-line sensor model, in millimeters, times `LINEAR_SCALE`.
pub const LINEAR_OFFSET: u64 = 23115;

/// The factory calibration of the sensor, as `(reading, length in mm)`.
pub open spec fn factory_points() -> Seq<Point> {
    seq![(952u16, 86u16), (1432u16, 172u16), (1893u16, 258u16), (2204u16, 316u16), (2572u16, 386u16)]
}

/// A non-negative length in millimeters.
#[derive(Debug, Clone, Copy, PartialEq, Eq, Structural, PartialOrd, Ord)]
pub struct Millimeters(pub u16);

/// `|a - b|` on mathematical integers.
pub open spec fn abs_diff(a: int, b: int) -> int {
    if a < b {
        b - a
    } else {
        a - b
    }
}

/// The order of `a` against `b` when differences up to `tolerance` count as equal.
pub open spec fn fuzzy_order(a: int, b: int, tolerance: int) -> Ordering {
    if abs_diff(a, b) <= tolerance {
        Ordering::Equal
    } else if a < b {
        Ordering::Less
    } else {
        Ordering::Greater
    }
}

/// Fuzzy comparison at its boundary: lengths at most `tolerance` apart compare
/// equal, and lengths `tolerance + 1` apart compare by their plain order; in
/// particular for the standstill and the movement tolerance.
pub proof fn lemma_fuzzy_boundary(a: Millimeters, b: Millimeters, tolerance: Millimeters)
    ensures
        abs_diff(a.mm(), b.mm()) <= tolerance.mm() ==> fuzzy_order(a.mm(), b.mm(), tolerance.mm()) == Ordering::Equal,
        abs_diff(a.mm(), b.mm()) == tolerance.mm() + 1 ==> fuzzy_order(a.mm(), b.mm(), tolerance.mm()) == if a.mm() < b.mm() {
            Ordering::Less
        } else {
            Ordering::Greater
        },
        abs_diff(a.mm(), b.mm()) == STANDSTILL_TOLERANCE_MM + 1 ==> fuzzy_order(a.mm(), b.mm(), STANDSTILL_TOLERANCE_MM as int) != Ordering::Equal,
        abs_diff(a.mm(), b.mm()) <= STANDSTILL_TOLERANCE_MM ==> fuzzy_order(a.mm(), b.mm(), STANDSTILL_TOLERANCE_MM as int) == Ordering::Equal,
        abs_diff(a.mm(), b.mm()) == MOVEMENT_TOLERANCE_MM + 1 ==> fuzzy_order(a.mm(), b.mm(), MOVEMENT_TOLERANCE_MM as int) != Ordering::Equal,
        abs_diff(a.mm(), b.mm()) <= MOVEMENT_TOLERANCE_MM ==> fuzzy_order(a.mm(), b.mm(), MOVEMENT_TOLERANCE_MM as int) == Ordering::Equal,
{
}

/// `a + b`, clamped to the range of `u16`.
pub open spec fn saturating_add_spec(a: int, b: int) -> int {
    if a + b > u16::MAX {
        u16::MAX as int
    } else {
        a + b
    }
}

/// `a - b`, clamped at zero.
pub open spec fn saturating_sub_spec(a: int, b: int) -> int {
    if a - b < 0 {
        0
    } else {
        a - b
    }
}

impl Millimeters {
    /// The length in millimeters, as a mathematical integer.
    pub open spec fn mm(self) -> int {
        self.0 as int
    }

    pub fn from_mm(value: u16) -> (r: Self)
        ensures
            r.mm() == value,
    {
        Self(value)
    }

    /// Compares two lengths, treating any difference of at most `tolerance` as equal.
    pub fn cmp_fuzzy_eq(self, other: Self, tolerance: Self) -> (r: Ordering)
        ensures
            r == fuzzy_order(self.mm(), other.mm(), tolerance.mm()),
    {
        let left = self.0;
        let right = other.0;
        let diff: u16 = if left < right {
            right - left
        } else {
            left - right
        };
        if diff <= tolerance.0 {
            Ordering::Equal
        } else if left < right {
            Ordering::Less
        } else {
            Ordering::Greater
        }
    }

    /// One millimeter more, saturating at the largest length.
    pub fn increase(self) -> (r: Self)
        ensures
            r.mm() == saturating_add_spec(self.mm(), 1),
    {
        Self(self.0.saturating_add(1))
    }

    /// One millimeter less, saturating at zero.
    pub fn decrease(self) -> (r: Self)
        ensures
            r.mm() == saturating_sub_spec(self.mm(), 1),
    {
        Self(self.0.saturating_sub(1))
    }

    /// Whole centimeters, truncated.
    pub fn as_cm(self) -> (r: u16)
        ensures
            r == self.mm() / 10,
    {
        self.0 / 10
    }

    pub fn as_mm(self) -> (r: u16)
        ensures
            r == self.mm(),
    {
        self.0
    }

    /// Length for a raw reading by the straight-line sensor model; readings below
    /// the model's zero point are outside its range.
    pub fn _from_adc_reading_simple(reading: u16) -> (r: Self)
        requires
            LINEAR_SLOPE * reading >= LINEAR_OFFSET,
        ensures
            r.mm() == (LINEAR_SLOPE as int * reading as int - LINEAR_OFFSET as int) / LINEAR_SCALE as int,
    {
        let reading: u64 = reading as u64;
        let length: u64 = (LINEAR_SLOPE * reading - LINEAR_OFFSET) / LINEAR_SCALE;
        if length > u16::MAX as u64 {
            Self(u16::MAX)
        } else {
            Self(length as u16)
        }
    }

    /// Length for a raw reading by the factory calibration.
    pub fn from_adc_reading(reading: u16) -> (r: Self)
        ensures
            r.mm() == transform_spec(factory_points(), reading),
    {
        let fix_points: [Point; 5] = [(952, 86), (1432, 172), (1893, 258), (2204, 316), (2572, 386)];
        proof {
            assert(fix_points@ =~= factory_points());
        }
        Self(transform_points(fix_points.as_slice(), reading))
    }

    pub fn is_zero(self) -> (r: bool)
        ensures
            r == (self.mm() == 0),
    {
        self.0 == 0
    }
}

} // verus!
