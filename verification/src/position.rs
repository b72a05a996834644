//! A point on the globe, in fixed point.

use vstd::prelude::*;
use vstd::string::*;
use crate::decimal::{append_fixed, fixed_text};

verus! {

/// Units of a coordinate in one degree: coordinates are kept in ten
/// millionths of a degree.
pub const COORDINATE_SCALE: i32 = 10_000_000;

/// Millionths in one: a coordinate is shown with six decimal places.
pub const SHOWN_SCALE: u32 = 1_000_000;

/// A point on the globe: latitude and longitude, north and east positive,
/// each in ten millionths of a degree.
#[derive(Clone, Copy, Debug, PartialEq, Eq, Structural)]
pub struct Position {
    pub latitude: i32,
    pub longitude: i32,
}

/// A coordinate in millionths of a degree, rounded to the nearest; a half
/// is rounded away from zero.
pub open spec fn shown_millionths(units: int) -> int {
    if units < 0 {
        -((-units + 5) / 10)
    } else {
        (units + 5) / 10
    }
}

/// The text of a coordinate: degrees with six decimal places.
pub open spec fn coordinate_text(units: int) -> Seq<char> {
    fixed_text(shown_millionths(units), SHOWN_SCALE as nat, 6)
}

fn round_to_millionths(units: i32) -> (r: i64)
    ensures
        r == shown_millionths(units as int),
{
    if units < 0 {
        -((-(units as i64) + 5) / 10)
    } else {
        (units as i64 + 5) / 10
    }
}

impl Position {
    /// The text of the point: both coordinates in degrees with six decimal
    /// places, in round brackets.
    pub open spec fn text(self) -> Seq<char> {
        "("@ + coordinate_text(self.latitude as int) + "°, "@ + coordinate_text(
            self.longitude as int,
        ) + "°)"@
    }

    /// The point at `latitude` and `longitude`.
    pub fn new(latitude: i32, longitude: i32) -> (r: Position)
        ensures
            r == (Position { latitude, longitude }),
    {
        Position { latitude, longitude }
    }

    /// The point as it is displayed.
    pub fn to_string(&self) -> (r: String)
        ensures
            r@ == self.text(),
    {
        let mut text = String::new();
        text.append("(");
        append_fixed(&mut text, round_to_millionths(self.latitude), SHOWN_SCALE, 6);
        text.append("°, ");
        append_fixed(&mut text, round_to_millionths(self.longitude), SHOWN_SCALE, 6);
        text.append("°)");
        proof {
            let a = coordinate_text(self.latitude as int);
            let b = coordinate_text(self.longitude as int);
            assert(Seq::<char>::empty() + "("@ == "("@);
            assert(text@ == (((("("@ + a) + "°, "@) + b) + "°)"@));
        }
        text
    }
}

} // verus!
