use vstd::prelude::*;
use crate::measure::{Measurement, SUBUNITS_PER_MILLIMETER_TENTH};

verus! {

/// The supported physical page sizes.
#[derive(Clone, Copy, PartialEq, Eq, Structural, Debug)]
pub enum PaperSize {
    Letter,
    A4,
}

impl PaperSize {
    /// Page width in tenths of a millimeter.
    pub open spec fn spec_width_millimeter_tenths(self) -> u64 {
        match self {
            PaperSize::Letter => 2159,
            PaperSize::A4 => 2100,
        }
    }

    /// Page height in tenths of a millimeter.
    pub open spec fn spec_height_millimeter_tenths(self) -> u64 {
        match self {
            PaperSize::Letter => 2794,
            PaperSize::A4 => 2970,
        }
    }

    /// Page width in point subunits.
    pub open spec fn spec_width_subunits(self) -> int {
        self.spec_width_millimeter_tenths() * SUBUNITS_PER_MILLIMETER_TENTH
    }

    /// Page height in point subunits.
    pub open spec fn spec_height_subunits(self) -> int {
        self.spec_height_millimeter_tenths() * SUBUNITS_PER_MILLIMETER_TENTH
    }

    /// The physical page width (Letter: 215.9 mm, A4: 210 mm).
    pub fn width(&self) -> (m: Measurement)
        ensures
            m.subunits == self.spec_width_subunits(),
    {
        match self {
            PaperSize::Letter => Measurement::from_millimeter_tenths(2159),
            PaperSize::A4 => Measurement::from_millimeter_tenths(2100),
        }
    }

    /// The physical page height (Letter: 279.4 mm, A4: 297 mm).
    pub fn height(&self) -> (m: Measurement)
        ensures
            m.subunits == self.spec_height_subunits(),
    {
        match self {
            PaperSize::Letter => Measurement::from_millimeter_tenths(2794),
            PaperSize::A4 => Measurement::from_millimeter_tenths(2970),
        }
    }
}

impl Default for PaperSize {
    /// The default page size is A4.
    fn default() -> (p: Self)
        ensures
            p == PaperSize::A4,
    {
        PaperSize::A4
    }
}

/// The supported physical card sizes.
#[derive(Clone, Copy, PartialEq, Eq, Structural, Debug)]
pub enum CardSize {
    Tcg,
    Tarrot,
}

impl CardSize {
    /// Card width in tenths of a millimeter.
    pub open spec fn spec_width_millimeter_tenths(self) -> u64 {
        match self {
            CardSize::Tcg => 630,
            CardSize::Tarrot => 700,
        }
    }

    /// Card height in tenths of a millimeter.
    pub open spec fn spec_height_millimeter_tenths(self) -> u64 {
        match self {
            CardSize::Tcg => 880,
            CardSize::Tarrot => 1200,
        }
    }

    /// Card width in point subunits.
    pub open spec fn spec_width_subunits(self) -> int {
        self.spec_width_millimeter_tenths() * SUBUNITS_PER_MILLIMETER_TENTH
    }

    /// Card height in point subunits.
    pub open spec fn spec_height_subunits(self) -> int {
        self.spec_height_millimeter_tenths() * SUBUNITS_PER_MILLIMETER_TENTH
    }

    /// The physical card width (standard trading card: 63 mm, tarot: 70 mm).
    pub fn width(&self) -> (m: Measurement)
        ensures
            m.subunits == self.spec_width_subunits(),
    {
        match self {
            CardSize::Tcg => Measurement::from_millimeter_tenths(630),
            CardSize::Tarrot => Measurement::from_millimeter_tenths(700),
        }
    }

    /// The physical card height (standard trading card: 88 mm, tarot: 120 mm).
    pub fn height(&self) -> (m: Measurement)
        ensures
            m.subunits == self.spec_height_subunits(),
    {
        match self {
            CardSize::Tcg => Measurement::from_millimeter_tenths(880),
            CardSize::Tarrot => Measurement::from_millimeter_tenths(1200),
        }
    }
}

} // verus!
