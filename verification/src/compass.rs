//! The 16-point compass rose and the classification of a heading into one of
//! its points, at 16, 8 or 4 points of resolution.

use vstd::prelude::*;
use vstd::string::*;
use crate::angle::{normalize, normalize_heading, wrap_signed, FULL_TURN};

verus! {

/// A point of the 16-point compass rose, clockwise from north.
#[derive(Clone, Copy, Debug, PartialEq, Eq, Structural)]
pub enum Azimuth {
    N,
    NNE,
    NE,
    ENE,
    E,
    ESE,
    SE,
    SSE,
    S,
    SSW,
    SW,
    WSW,
    W,
    WNW,
    NW,
    NNW,
}

impl Azimuth {
    /// The place of the point on the rose: 0 for north, then clockwise to 15.
    pub open spec fn index(self) -> int {
        match self {
            Azimuth::N => 0,
            Azimuth::NNE => 1,
            Azimuth::NE => 2,
            Azimuth::ENE => 3,
            Azimuth::E => 4,
            Azimuth::ESE => 5,
            Azimuth::SE => 6,
            Azimuth::SSE => 7,
            Azimuth::S => 8,
            Azimuth::SSW => 9,
            Azimuth::SW => 10,
            Azimuth::WSW => 11,
            Azimuth::W => 12,
            Azimuth::WNW => 13,
            Azimuth::NW => 14,
            Azimuth::NNW => 15,
        }
    }

    /// The point at place `i` of the rose; north for any `i` outside `1..=15`.
    pub open spec fn at(i: int) -> Azimuth {
        if i == 1 {
            Azimuth::NNE
        } else if i == 2 {
            Azimuth::NE
        } else if i == 3 {
            Azimuth::ENE
        } else if i == 4 {
            Azimuth::E
        } else if i == 5 {
            Azimuth::ESE
        } else if i == 6 {
            Azimuth::SE
        } else if i == 7 {
            Azimuth::SSE
        } else if i == 8 {
            Azimuth::S
        } else if i == 9 {
            Azimuth::SSW
        } else if i == 10 {
            Azimuth::SW
        } else if i == 11 {
            Azimuth::WSW
        } else if i == 12 {
            Azimuth::W
        } else if i == 13 {
            Azimuth::WNW
        } else if i == 14 {
            Azimuth::NW
        } else if i == 15 {
            Azimuth::NNW
        } else {
            Azimuth::N
        }
    }

    /// The heading of the point itself, in millidegrees.
    pub open spec fn bearing(self) -> int {
        self.index() * (SPAN_16 as int)
    }

    /// Whether the point belongs to the 8-point rose.
    pub open spec fn is_principal(self) -> bool {
        self.index() % 2 == 0
    }

    /// Whether the point belongs to the 4-point rose.
    pub open spec fn is_cardinal(self) -> bool {
        self.index() % 4 == 0
    }

    /// The full name of the point, as text.
    pub open spec fn name_of(self) -> Seq<char> {
        match self {
            Azimuth::N => "North"@,
            Azimuth::NNE => "North-NorthEast"@,
            Azimuth::NE => "North-East"@,
            Azimuth::ENE => "East-NorthEast"@,
            Azimuth::E => "East"@,
            Azimuth::ESE => "East-SouthEast"@,
            Azimuth::SE => "South-East"@,
            Azimuth::SSE => "South-SouthEast"@,
            Azimuth::S => "South"@,
            Azimuth::SSW => "South-SouthWest"@,
            Azimuth::SW => "South-West"@,
            Azimuth::WSW => "West-SouthWest"@,
            Azimuth::W => "West"@,
            Azimuth::WNW => "West-NorthWest"@,
            Azimuth::NW => "North-West"@,
            Azimuth::NNW => "North-NorthWest"@,
        }
    }

    /// The abbreviation of the point, as text.
    pub open spec fn abbreviation_of(self) -> Seq<char> {
        match self {
            Azimuth::N => "N"@,
            Azimuth::NNE => "NNE"@,
            Azimuth::NE => "NE"@,
            Azimuth::ENE => "ENE"@,
            Azimuth::E => "E"@,
            Azimuth::ESE => "ESE"@,
            Azimuth::SE => "SE"@,
            Azimuth::SSE => "SSE"@,
            Azimuth::S => "S"@,
            Azimuth::SSW => "SSW"@,
            Azimuth::SW => "SW"@,
            Azimuth::WSW => "WSW"@,
            Azimuth::W => "W"@,
            Azimuth::WNW => "WNW"@,
            Azimuth::NW => "NW"@,
            Azimuth::NNW => "NNW"@,
        }
    }

    /// The full name of the point.
    pub fn name(&self) -> (r: &'static str)
        ensures
            r@ == self.name_of(),
    {
        match self {
            Azimuth::N => "North",
            Azimuth::NNE => "North-NorthEast",
            Azimuth::NE => "North-East",
            Azimuth::ENE => "East-NorthEast",
            Azimuth::E => "East",
            Azimuth::ESE => "East-SouthEast",
            Azimuth::SE => "South-East",
            Azimuth::SSE => "South-SouthEast",
            Azimuth::S => "South",
            Azimuth::SSW => "South-SouthWest",
            Azimuth::SW => "South-West",
            Azimuth::WSW => "West-SouthWest",
            Azimuth::W => "West",
            Azimuth::WNW => "West-NorthWest",
            Azimuth::NW => "North-West",
            Azimuth::NNW => "North-NorthWest",
        }
    }

    /// The abbreviation of the point.
    pub fn abbreviation(&self) -> (r: &'static str)
        ensures
            r@ == self.abbreviation_of(),
    {
        match self {
            Azimuth::N => "N",
            Azimuth::NNE => "NNE",
            Azimuth::NE => "NE",
            Azimuth::ENE => "ENE",
            Azimuth::E => "E",
            Azimuth::ESE => "ESE",
            Azimuth::SE => "SE",
            Azimuth::SSE => "SSE",
            Azimuth::S => "S",
            Azimuth::SSW => "SSW",
            Azimuth::SW => "SW",
            Azimuth::WSW => "WSW",
            Azimuth::W => "W",
            Azimuth::WNW => "WNW",
            Azimuth::NW => "NW",
            Azimuth::NNW => "NNW",
        }
    }

    /// The point as it is displayed: its abbreviation, as an owned string.
    pub fn to_string(&self) -> (r: String)
        ensures
            r@ == self.abbreviation_of(),
    {
        self.abbreviation().to_owned()
    }
}

/// The width of one point of the 16-point rose, in millidegrees.
pub const SPAN_16: i32 = 22_500;

/// The width of one point of the 8-point rose, in millidegrees.
pub const SPAN_8: i32 = 45_000;

/// The width of one point of the 4-point rose, in millidegrees.
pub const SPAN_4: i32 = 90_000;

/// The sector of a rose of `points` points that holds a normalized heading.
/// Sector `k` is centred on `k` spans from north and reaches half a span to
/// either side; its upper bound belongs to the next sector.
pub open spec fn sector(normalized: int, points: int) -> int {
    let span = (FULL_TURN as int) / points;
    ((normalized + span / 2) / span) % points
}

/// The point of the 16-point rose for a normalized heading.
pub open spec fn azimuth_16(normalized: int) -> Azimuth {
    Azimuth::at(sector(normalized, 16))
}

/// The point of the 8-point rose for a normalized heading.
pub open spec fn azimuth_8(normalized: int) -> Azimuth {
    Azimuth::at(2 * sector(normalized, 8))
}

/// The point of the 4-point rose for a normalized heading.
pub open spec fn azimuth_4(normalized: int) -> Azimuth {
    Azimuth::at(4 * sector(normalized, 4))
}

/// Classifies a heading on the 16-point rose; returns the point and the
/// normalized heading it was found for.
pub fn heading_to_azimuth_16point(heading: i32) -> (r: (Azimuth, i32))
    ensures
        r.1 == normalize(heading as int),
        r.0 == azimuth_16(r.1 as int),
{
    let normalized: i32 = normalize_heading(heading);
    let azimuth = if normalized < 11_250 {
        Azimuth::N
    } else if normalized < 33_750 {
        Azimuth::NNE
    } else if normalized < 56_250 {
        Azimuth::NE
    } else if normalized < 78_750 {
        Azimuth::ENE
    } else if normalized < 101_250 {
        Azimuth::E
    } else if normalized < 123_750 {
        Azimuth::ESE
    } else if normalized < 146_250 {
        Azimuth::SE
    } else if normalized < 168_750 {
        Azimuth::SSE
    } else if normalized < 191_250 {
        Azimuth::S
    } else if normalized < 213_750 {
        Azimuth::SSW
    } else if normalized < 236_250 {
        Azimuth::SW
    } else if normalized < 258_750 {
        Azimuth::WSW
    } else if normalized < 281_250 {
        Azimuth::W
    } else if normalized < 303_750 {
        Azimuth::WNW
    } else if normalized < 326_250 {
        Azimuth::NW
    } else if normalized < 348_750 {
        Azimuth::NNW
    } else {
        Azimuth::N
    };
    (azimuth, normalized)
}

/// Classifies a heading on the 8-point rose; returns the point and the
/// normalized heading it was found for.
pub fn heading_to_azimuth_8point(heading: i32) -> (r: (Azimuth, i32))
    ensures
        r.1 == normalize(heading as int),
        r.0 == azimuth_8(r.1 as int),
{
    let normalized: i32 = normalize_heading(heading);
    let azimuth = if normalized < 22_500 {
        Azimuth::N
    } else if normalized < 67_500 {
        Azimuth::NE
    } else if normalized < 112_500 {
        Azimuth::E
    } else if normalized < 157_500 {
        Azimuth::SE
    } else if normalized < 202_500 {
        Azimuth::S
    } else if normalized < 247_500 {
        Azimuth::SW
    } else if normalized < 292_500 {
        Azimuth::W
    } else if normalized < 337_500 {
        Azimuth::NW
    } else {
        Azimuth::N
    };
    (azimuth, normalized)
}

/// Classifies a heading on the 4-point rose; returns the point and the
/// normalized heading it was found for.
pub fn heading_to_azimuth_4point(heading: i32) -> (r: (Azimuth, i32))
    ensures
        r.1 == normalize(heading as int),
        r.0 == azimuth_4(r.1 as int),
{
    let normalized: i32 = normalize_heading(heading);
    let azimuth = if normalized < 45_000 {
        Azimuth::N
    } else if normalized < 135_000 {
        Azimuth::E
    } else if normalized < 225_000 {
        Azimuth::S
    } else if normalized < 315_000 {
        Azimuth::W
    } else {
        Azimuth::N
    };
    (azimuth, normalized)
}

/// Every heading lies within half a span of the point it is classified as:
/// at least half a span before the point's own bearing is excluded, half a
/// span after it is excluded too and belongs to the next point.
pub proof fn lemma_point_spans_heading(normalized: int)
    requires
        0 <= normalized < FULL_TURN,
    ensures
        -(SPAN_16 / 2) <= wrap_signed(normalized - azimuth_16(normalized).bearing()) < SPAN_16 / 2,
        -(SPAN_8 / 2) <= wrap_signed(normalized - azimuth_8(normalized).bearing()) < SPAN_8 / 2,
        -(SPAN_4 / 2) <= wrap_signed(normalized - azimuth_4(normalized).bearing()) < SPAN_4 / 2,
        azimuth_8(normalized).is_principal(),
        azimuth_4(normalized).is_cardinal(),
{
    let k = (normalized + 11_250) / 22_500;
    assert(0 <= k <= 16);
    assert(k * 22_500 <= normalized + 11_250 < k * 22_500 + 22_500);
    assert(sector(normalized, 16) == if k == 16 { 0 } else { k });
    assert(azimuth_16(normalized).index() == sector(normalized, 16));
}

/// The three roses agree wherever they can: a heading whose 16-point class is
/// a point of the 8-point rose has that same 8-point class, and a heading
/// whose 8-point class is a cardinal point has that same 4-point class.
pub proof fn lemma_roses_agree(normalized: int)
    requires
        0 <= normalized < FULL_TURN,
    ensures
        azimuth_16(normalized).is_principal() ==> azimuth_8(normalized) == azimuth_16(normalized),
        azimuth_8(normalized).is_cardinal() ==> azimuth_4(normalized) == azimuth_8(normalized),
{
}

/// A heading and the same heading with whole turns added are classified
/// alike, at every resolution.
pub proof fn lemma_classification_periodic(heading: int, turns: int)
    ensures
        azimuth_16(normalize(heading + FULL_TURN * turns)) == azimuth_16(normalize(heading)),
        azimuth_8(normalize(heading + FULL_TURN * turns)) == azimuth_8(normalize(heading)),
        azimuth_4(normalize(heading + FULL_TURN * turns)) == azimuth_4(normalize(heading)),
{
    crate::angle::lemma_normalize_periodic(heading, turns);
}

} // verus!
