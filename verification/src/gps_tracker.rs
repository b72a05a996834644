//! The last known track of the vehicle: position, heading, speed, satellite
//! count and dilution of precision, each absent until a fix brings it and
//! never cleared afterwards.

use vstd::prelude::*;
use crate::position::Position;
use crate::vector::Vector;

verus! {

/// What one fix brings. Each part may be missing. Coordinates are in ten
/// millionths of a degree, the course in millidegrees, the speed in
/// thousandths of a knot, the dilution of precision in thousandths.
#[derive(Clone, Copy, Debug, PartialEq, Eq, Structural)]
pub struct Fix {
    pub latitude: Option<i32>,
    pub longitude: Option<i32>,
    pub course: Option<i32>,
    pub speed: Option<i32>,
    pub satellites: Option<u32>,
    pub hdop: Option<i32>,
}

/// The count of satellites as the track keeps it: the count itself where it
/// fits into eight bits, else zero.
pub open spec fn satellite_count(count: u32) -> u8 {
    if count <= u8::MAX {
        count as u8
    } else {
        0
    }
}

/// The track as plain values.
pub struct Track {
    pub position: Option<Position>,
    pub heading: Option<i32>,
    pub speed: Option<i32>,
    pub satellites: Option<u8>,
    pub hdop: Option<i32>,
}

impl Track {
    /// The track before the first fix: nothing is known.
    pub open spec fn empty() -> Track {
        Track { position: None, heading: None, speed: None, satellites: None, hdop: None }
    }

    /// The track after a fix. A part that the fix brings replaces what was
    /// known; a part that it lacks leaves what was known. The position is
    /// one part: it takes both coordinates.
    pub open spec fn merged(self, fix: Fix) -> Track {
        Track {
            position: match (fix.latitude, fix.longitude) {
                (Some(latitude), Some(longitude)) => Some(Position { latitude, longitude }),
                _ => self.position,
            },
            heading: match fix.course {
                Some(course) => Some(course),
                None => self.heading,
            },
            speed: match fix.speed {
                Some(speed) => Some(speed),
                None => self.speed,
            },
            satellites: match fix.satellites {
                Some(count) => Some(satellite_count(count)),
                None => self.satellites,
            },
            hdop: match fix.hdop {
                Some(hdop) => Some(hdop),
                None => self.hdop,
            },
        }
    }

    /// The stretch ahead: from the position along the heading, once both
    /// are known.
    pub open spec fn forward(self, distance: i64) -> Option<Vector> {
        match (self.position, self.heading) {
            (Some(start), Some(heading)) => Some(Vector { start, heading, distance }),
            _ => None,
        }
    }

    /// The stretch from the position along `heading`, once the position is
    /// known.
    pub open spec fn towards(self, heading: i32, distance: i64) -> Option<Vector> {
        match self.position {
            Some(start) => Some(Vector { start, heading, distance }),
            None => None,
        }
    }

    /// The heading to go by: that of the track, else what the compass
    /// gave.
    pub open spec fn heading_or(self, compass: Option<i32>) -> Option<i32> {
        match self.heading {
            Some(heading) => Some(heading),
            None => compass,
        }
    }
}

/// Keeps the count of satellites where it fits into eight bits, else zero.
pub fn clamp_satellites(count: u32) -> (r: u8)
    ensures
        r == satellite_count(count),
{
    if count <= 255 {
        count as u8
    } else {
        0
    }
}

/// The last known track.
#[derive(Clone, Copy, Debug)]
pub struct GpsTracker {
    current_position: Option<Position>,
    current_heading: Option<i32>,
    current_speed: Option<i32>,
    num_satellites: Option<u8>,
    hdop: Option<i32>,
}

impl View for GpsTracker {
    type V = Track;

    closed spec fn view(&self) -> Track {
        Track {
            position: self.current_position,
            heading: self.current_heading,
            speed: self.current_speed,
            satellites: self.num_satellites,
            hdop: self.hdop,
        }
    }
}

impl GpsTracker {
    /// A track of which nothing is known yet.
    pub fn new() -> (r: GpsTracker)
        ensures
            r@ == Track::empty(),
    {
        GpsTracker {
            current_position: None,
            current_heading: None,
            current_speed: None,
            num_satellites: None,
            hdop: None,
        }
    }

    /// The position known last.
    pub fn get_current_position(&self) -> (r: Option<Position>)
        ensures
            r == self@.position,
    {
        self.current_position
    }

    /// Replaces the position.
    pub fn update_position(&mut self, lat: i32, lon: i32)
        ensures
            final(self)@ == (Track {
                position: Some(Position { latitude: lat, longitude: lon }),
                ..old(self)@
            }),
    {
        self.current_position = Some(Position::new(lat, lon));
    }

    /// The heading known last, in millidegrees.
    pub fn get_current_heading(&self) -> (r: Option<i32>)
        ensures
            r == self@.heading,
    {
        self.current_heading
    }

    /// Replaces the heading. The value is kept as it comes.
    pub fn update_heading(&mut self, heading: i32)
        ensures
            final(self)@ == (Track { heading: Some(heading), ..old(self)@ }),
    {
        self.current_heading = Some(heading);
    }

    /// The count of satellites known last.
    pub fn get_num_satellites(&self) -> (r: Option<u8>)
        ensures
            r == self@.satellites,
    {
        self.num_satellites
    }

    /// Replaces the count of satellites.
    pub fn update_satellites(&mut self, num_sats: u8)
        ensures
            final(self)@ == (Track { satellites: Some(num_sats), ..old(self)@ }),
    {
        self.num_satellites = Some(num_sats);
    }

    /// The speed known last, in thousandths of a knot.
    pub fn get_current_speed(&self) -> (r: Option<i32>)
        ensures
            r == self@.speed,
    {
        self.current_speed
    }

    /// Replaces the speed.
    pub fn update_speed(&mut self, speed: i32)
        ensures
            final(self)@ == (Track { speed: Some(speed), ..old(self)@ }),
    {
        self.current_speed = Some(speed);
    }

    /// The dilution of precision known last, in thousandths.
    pub fn get_hdop(&self) -> (r: Option<i32>)
        ensures
            r == self@.hdop,
    {
        self.hdop
    }

    /// Replaces the dilution of precision.
    pub fn update_hdop(&mut self, hdop: i32)
        ensures
            final(self)@ == (Track { hdop: Some(hdop), ..old(self)@ }),
    {
        self.hdop = Some(hdop);
    }

    /// Takes in one fix: every part that it brings replaces what was known,
    /// every part that it lacks leaves what was known.
    pub fn apply_fix(&mut self, fix: &Fix)
        ensures
            final(self)@ == old(self)@.merged(*fix),
    {
        match (fix.latitude, fix.longitude) {
            (Some(lat), Some(lon)) => {
                self.update_position(lat, lon);
            },
            _ => {},
        }
        match fix.course {
            Some(course) => {
                self.update_heading(course);
            },
            None => {},
        }
        match fix.satellites {
            Some(count) => {
                self.update_satellites(clamp_satellites(count));
            },
            None => {},
        }
        match fix.speed {
            Some(speed) => {
                self.update_speed(speed);
            },
            None => {},
        }
        match fix.hdop {
            Some(hdop) => {
                self.update_hdop(hdop);
            },
            None => {},
        }
    }

    /// The stretch of `distance` millimetres ahead: from the position along
    /// the heading; absent while either is unknown.
    pub fn get_forward_vector(&self, distance: i64) -> (r: Option<Vector>)
        ensures
            r == self@.forward(distance),
    {
        match (self.current_position, self.current_heading) {
            (Some(pos), Some(heading)) => Some(Vector::from_heading(pos, heading, distance)),
            _ => None,
        }
    }

    /// The stretch of `distance` millimetres from the position along
    /// `heading`; absent while the position is unknown.
    pub fn get_vector_to_azimuth(&self, heading: i32, distance: i64) -> (r: Option<Vector>)
        ensures
            r == self@.towards(heading, distance),
    {
        match self.current_position {
            Some(pos) => Some(Vector::new(pos, heading, distance)),
            None => None,
        }
    }

    /// The same stretch as `get_vector_to_azimuth`, for callers that speak of
    /// a direction rather than an azimuth.
    pub fn get_vector_in_direction(&self, bearing: i32, distance: i64) -> (r: Option<Vector>)
        ensures
            r == self@.towards(bearing, distance),
    {
        self.get_vector_to_azimuth(bearing, distance)
    }

    /// The heading to go by: that of the track where it is known, else the
    /// reading of the compass, which is only looked at in that case.
    pub fn get_current_heading_with_compass(&self, compass: Option<i32>) -> (r: Option<i32>)
        ensures
            r == self@.heading_or(compass),
    {
        match self.current_heading {
            Some(gps_heading) => Some(gps_heading),
            None => compass,
        }
    }
}

/// A fix never clears what the track knows, and what it brings is what the
/// track then holds.
pub proof fn lemma_fix_keeps_track(track: Track, fix: Fix)
    ensures
        track.position is Some ==> track.merged(fix).position is Some,
        track.heading is Some ==> track.merged(fix).heading is Some,
        track.speed is Some ==> track.merged(fix).speed is Some,
        track.satellites is Some ==> track.merged(fix).satellites is Some,
        track.hdop is Some ==> track.merged(fix).hdop is Some,
        fix.course is Some ==> track.merged(fix).heading == fix.course,
        fix.speed is Some ==> track.merged(fix).speed == fix.speed,
        fix.hdop is Some ==> track.merged(fix).hdop == fix.hdop,
        fix.latitude is Some && fix.longitude is Some ==> track.merged(fix).position == Some(
            Position { latitude: fix.latitude->Some_0, longitude: fix.longitude->Some_0 },
        ),
{
}

} // verus!
