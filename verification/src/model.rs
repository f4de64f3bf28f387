//! The document model: positions, locations, records, tracks.

use crate::scalar::Scalar;
use vstd::prelude::*;

verus! {

/// A geodetic position with a height above mean sea level, in metres.
/// Longitude and latitude are in degrees.
#[derive(Clone, Copy, Debug, PartialEq, Eq, Structural)]
pub struct Position3d {
    pub lat: Scalar,
    pub lon: Scalar,
    pub height: Scalar,
}

/// A geodetic position on the ground.
#[derive(Clone, Copy, Debug, PartialEq, Eq, Structural)]
pub struct Position2d {
    pub lat: Scalar,
    pub lon: Scalar,
}

impl Position2d {
    /// The same place at height 0.
    pub open spec fn grounded(self) -> Position3d {
        Position3d { lat: self.lat, lon: self.lon, height: Scalar::zero() }
    }

    /// The same place at height 0.
    pub fn on_ground(self) -> (p: Position3d)
        ensures
            p == self.grounded(),
    {
        Position3d { lat: self.lat, lon: self.lon, height: Scalar { bits: 0 } }
    }
}

/// One of the four quadrants around the sensor.
#[derive(Clone, Copy, Debug, PartialEq, Eq, Structural)]
pub enum Quad {
    North,
    East,
    South,
    West,
}

/// A range of bearings, in degrees.
#[derive(Clone, Copy, Debug, PartialEq, Eq, Structural)]
pub struct Arc {
    pub from: Scalar,
    pub to: Scalar,
}

/// Where a record places its object. Angles are in degrees, bearings are
/// clockwise from true north, distances are in metres.
#[derive(Clone, Copy, Debug, PartialEq, Eq, Structural)]
pub enum Location {
    Position2d(Position2d),
    Position3d(Position3d),
    BearingElevationDistance { bearing: Scalar, elevation: Scalar, distance: Scalar },
    BearingElevation { bearing: Scalar, elevation: Scalar },
    Bearing { bearing: Scalar },
    Quad { quad: Quad },
    Arc(Arc),
}

impl Location {
    /// Whether the location is an absolute position, which a track draws
    /// as a point of its trajectory.
    pub open spec fn is_position(self) -> bool {
        self is Position2d || self is Position3d
    }

    /// The point that an absolute position contributes to a trajectory: a
    /// position without a height lies at height 0.
    pub open spec fn trajectory_point(self) -> Option<Position3d> {
        match self {
            Location::Position3d(p) => Some(p),
            Location::Position2d(p) => Some(p.grounded()),
            _ => None,
        }
    }

    /// Whether the location is an absolute position.
    pub fn is_absolute_position(&self) -> (b: bool)
        ensures
            b == self.is_position(),
    {
        match self {
            Location::Position2d(_) => true,
            Location::Position3d(_) => true,
            _ => false,
        }
    }

    /// The point that the location contributes to a trajectory, if any.
    pub fn position(&self) -> (point: Option<Position3d>)
        ensures
            point == self.trajectory_point(),
            point.is_some() == self.is_position(),
    {
        match *self {
            Location::Position3d(p) => Some(p),
            Location::Position2d(p) => Some(p.on_ground()),
            _ => None,
        }
    }
}

/// What kind of object a record reports.
#[derive(Clone, Copy, Debug, PartialEq, Eq, Structural)]
pub enum Classification {
    Gcs,
    Other,
    Uav,
    Unknown,
}

/// The alarm state of a record; the certainty is between 0 and 1.
#[derive(Clone, Copy, Debug, PartialEq, Eq, Structural)]
pub struct Alarm {
    pub active: bool,
    pub certainty: Scalar,
}

/// A velocity in metres per second along east, north and up.
#[derive(Clone, Copy, Debug, PartialEq, Eq, Structural)]
pub struct Velocity {
    pub east: Scalar,
    pub north: Scalar,
    pub up: Scalar,
}

/// One record of a track. `time` is in milliseconds since the Unix epoch.
#[derive(Clone, Debug)]
pub struct TrackingRecord {
    pub time: u64,
    pub record_number: u64,
    pub classification: Classification,
    pub alarm: Alarm,
    pub location: Location,
    pub velocity: Option<Velocity>,
    pub identification: Option<String>,
    pub cuas_location: Option<Position3d>,
}

/// One record of a detection set. `time` is in milliseconds since the
/// Unix epoch.
#[derive(Clone, Debug)]
pub struct DetectionRecord {
    pub time: u64,
    pub record_number: u64,
    pub classification: Classification,
    pub alarm: Option<Alarm>,
    pub location: Option<Location>,
    pub velocity: Option<Velocity>,
    pub identification: Option<String>,
    pub cuas_location: Option<Position3d>,
}

/// The records of one tracked object, in the order in which they were
/// made.
#[derive(Clone, Debug)]
pub struct Track {
    pub name: Option<String>,
    pub uav_home_location: Option<Position3d>,
    pub records: Vec<TrackingRecord>,
}

/// A set of detections of one object.
#[derive(Clone, Debug)]
pub struct Detection {
    pub name: Option<String>,
    pub uas_id: Option<u64>,
    pub records: Vec<DetectionRecord>,
}

/// A whole document: the sensor's static position, the detection sets and
/// the tracks.
#[derive(Clone, Debug)]
pub struct Database {
    pub static_cuas_location: Position3d,
    pub detection: Vec<Detection>,
    pub tracks: Vec<Track>,
}

/// The origin from which a record's polar measurements are taken: its own
/// sensor position where it has one, else the document's.
pub open spec fn effective_origin(own: Option<Position3d>, fallback: Position3d) -> Position3d {
    match own {
        Some(p) => p,
        None => fallback,
    }
}

/// The origin from which a record's polar measurements are taken.
pub fn origin_of(own: Option<Position3d>, fallback: Position3d) -> (origin: Position3d)
    ensures
        origin == effective_origin(own, fallback),
{
    match own {
        Some(p) => p,
        None => fallback,
    }
}

} // verus!
