use vstd::prelude::*;
use vstd::arithmetic::div_mod::lemma_div_multiples_vanish;

verus! {

/// Lengths are stored as whole multiples of 1/20_000_000 of a typographic
/// point.  This subunit is fine enough to represent the millimeter catalog
/// values, the point values derived from them, and the halved centering
/// margins all exactly.
pub const SUBUNITS_PER_POINT: u64 = 20_000_000;

/// Subunits in one tenth of a millimeter.  One millimeter is 2.834645
/// points, so 0.1 mm = 0.2834645 pt = 5_669_290 subunits.
pub const SUBUNITS_PER_MILLIMETER_TENTH: u64 = 5_669_290;

/// One device pixel spans 72/dpi points, so a length of `s` subunits spans
/// `s * dpi / PIXEL_DIVISOR` pixels, where PIXEL_DIVISOR = 72 * SUBUNITS_PER_POINT.
pub const PIXEL_DIVISOR: u64 = 1_440_000_000;

/// Number of whole device pixels spanned by a length of `subunits` subunits
/// at resolution `dpi` (rounded down).
pub open spec fn spec_pixels(subunits: int, dpi: int) -> int {
    (subunits * dpi) / (PIXEL_DIVISOR as int)
}

/// A physical length, stored exactly as an integer count of point subunits.
///
/// All lengths in the library share this one canonical representation, so
/// adding or comparing two measurements never mixes units; the constructors
/// perform the explicit unit conversions.
#[derive(Clone, Copy, PartialEq, Eq, Structural, Debug)]
pub struct Measurement {
    pub subunits: u64,
}

impl Measurement {
    /// Length of `tenths` tenths of a millimeter.
    pub fn from_millimeter_tenths(tenths: u64) -> (m: Measurement)
        requires
            tenths * SUBUNITS_PER_MILLIMETER_TENTH <= u64::MAX,
        ensures
            m.subunits == tenths * SUBUNITS_PER_MILLIMETER_TENTH,
    {
        Measurement { subunits: tenths * SUBUNITS_PER_MILLIMETER_TENTH }
    }

    /// Length of `points` whole typographic points.
    pub fn from_points(points: u64) -> (m: Measurement)
        requires
            points * SUBUNITS_PER_POINT <= u64::MAX,
        ensures
            m.subunits == points * SUBUNITS_PER_POINT,
    {
        Measurement { subunits: points * SUBUNITS_PER_POINT }
    }

    /// The length expressed in tenths of a millimeter, rounded down.
    pub fn to_millimeter_tenths(&self) -> (tenths: u64)
        ensures
            tenths == self.subunits / SUBUNITS_PER_MILLIMETER_TENTH,
    {
        self.subunits / SUBUNITS_PER_MILLIMETER_TENTH
    }

    /// The number of whole device pixels this length spans at resolution
    /// `dpi`, rounded down.
    pub fn to_pixels(&self, dpi: u32) -> (px: u64)
        requires
            spec_pixels(self.subunits as int, dpi as int) <= u64::MAX,
        ensures
            px == spec_pixels(self.subunits as int, dpi as int),
    {
        (((self.subunits as u128) * (dpi as u128)) / (PIXEL_DIVISOR as u128)) as u64
    }

    /// The sum of two lengths.
    pub fn plus(&self, other: &Measurement) -> (m: Measurement)
        requires
            self.subunits + other.subunits <= u64::MAX,
        ensures
            m.subunits == self.subunits + other.subunits,
    {
        Measurement { subunits: self.subunits + other.subunits }
    }

    /// The difference of two lengths.
    pub fn minus(&self, other: &Measurement) -> (m: Measurement)
        requires
            other.subunits <= self.subunits,
        ensures
            m.subunits == self.subunits - other.subunits,
    {
        Measurement { subunits: self.subunits - other.subunits }
    }

    /// The length scaled by a whole factor.
    pub fn times(&self, factor: u64) -> (m: Measurement)
        requires
            self.subunits * factor <= u64::MAX,
        ensures
            m.subunits == self.subunits * factor,
    {
        Measurement { subunits: self.subunits * factor }
    }
}

/// Converting a whole number of millimeter tenths into a measurement and
/// back returns the original value: the millimeter-to-point conversion is
/// lossless.
pub proof fn lemma_millimeter_tenths_round_trip(tenths: u64)
    requires
        tenths * SUBUNITS_PER_MILLIMETER_TENTH <= u64::MAX,
    ensures
        (tenths * SUBUNITS_PER_MILLIMETER_TENTH) as int / SUBUNITS_PER_MILLIMETER_TENTH as int
            == tenths as int,
{
    lemma_div_multiples_vanish(tenths as int, SUBUNITS_PER_MILLIMETER_TENTH as int);
}

} // verus!
