//! Weather: how severe an event is at a given moment.
//!
//! The severity of weather follows a curve over time; what a curve yields
//! at one tick, truncated to a whole number, is sorted into one of five
//! bands of intensity.

use vstd::prelude::*;

verus! {

/// First value of the band `Mild`.
pub const MILD_INTENSITY_RANGE_MIN: i64 = 64;

/// First value of the band `Strong`.
pub const STRONG_INTENSITY_RANGE_MIN: i64 = 128;

/// First value of the band `Severe`.
pub const SEVERE_INTENSITY_RANGE_MIN: i64 = 192;

/// Last value of the band `Severe`; what lies beyond is `Max`.
pub const SEVERE_INTENSITY_RANGE_MAX: i64 = 255;

#[derive(Debug, Copy, Clone, PartialEq, Eq, Hash, Structural)]
pub enum Intensity {
    /// No weather to speak of.
    Calm,
    Mild,
    Strong,
    Severe,
    Max,
}

impl Intensity {
    /// The band of a whole-numbered severity. Negative severity is no
    /// weather at all.
    pub open spec fn band(severity: int) -> Intensity {
        if severity < MILD_INTENSITY_RANGE_MIN {
            Intensity::Calm
        } else if severity < STRONG_INTENSITY_RANGE_MIN {
            Intensity::Mild
        } else if severity < SEVERE_INTENSITY_RANGE_MIN {
            Intensity::Strong
        } else if severity <= SEVERE_INTENSITY_RANGE_MAX {
            Intensity::Severe
        } else {
            Intensity::Max
        }
    }

    /// English name of the band.
    pub open spec fn name(self) -> Seq<char> {
        match self {
            Intensity::Calm => "None"@,
            Intensity::Mild => "Mild"@,
            Intensity::Strong => "Strong"@,
            Intensity::Severe => "Severe"@,
            Intensity::Max => "Max"@,
        }
    }

    /// A more severe weather never falls into a lower band.
    pub proof fn lemma_band_is_monotonic(a: int, b: int)
        requires
            a <= b,
        ensures
            Intensity::band(a).rank() <= Intensity::band(b).rank(),
    {
    }

    /// Position of the band among the five, from `Calm` to `Max`.
    pub open spec fn rank(self) -> int {
        match self {
            Intensity::Calm => 0,
            Intensity::Mild => 1,
            Intensity::Strong => 2,
            Intensity::Severe => 3,
            Intensity::Max => 4,
        }
    }
}

impl Default for Intensity {
    fn default() -> (i: Self)
        ensures
            i == Intensity::Calm,
    {
        Intensity::Calm
    }
}

impl From<i64> for Intensity {
    fn from(src: i64) -> (i: Self)
        ensures
            i == Intensity::band(src as int),
    {
        if src < MILD_INTENSITY_RANGE_MIN {
            Intensity::Calm
        } else if src < STRONG_INTENSITY_RANGE_MIN {
            Intensity::Mild
        } else if src < SEVERE_INTENSITY_RANGE_MIN {
            Intensity::Strong
        } else if src <= SEVERE_INTENSITY_RANGE_MAX {
            Intensity::Severe
        } else {
            Intensity::Max
        }
    }
}

impl vstd::std_specs::convert::FromSpecImpl<i64> for Intensity {
    open spec fn obeys_from_spec() -> bool {
        true
    }

    open spec fn from_spec(v: i64) -> Intensity {
        Intensity::band(v as int)
    }
}

impl From<Intensity> for String {
    fn from(src: Intensity) -> (s: String)
        ensures
            s@ == src.name(),
    {
        match src {
            Intensity::Calm => "None".to_owned(),
            Intensity::Mild => "Mild".to_owned(),
            Intensity::Strong => "Strong".to_owned(),
            Intensity::Severe => "Severe".to_owned(),
            Intensity::Max => "Max".to_owned(),
        }
    }
}

impl vstd::std_specs::convert::FromSpecImpl<Intensity> for String {
    open spec fn obeys_from_spec() -> bool {
        false
    }

    open spec fn from_spec(v: Intensity) -> String {
        arbitrary()
    }
}

} // verus!
