//! What a record says about its object, as it is shown beside the shape.

use crate::model::{Alarm, Classification, DetectionRecord, TrackingRecord, Velocity};
use crate::scalar::Scalar;
use vstd::prelude::*;

verus! {

/// One of the six directions along which a speed is reported.
#[derive(Clone, Copy, Debug, PartialEq, Eq, Structural)]
pub enum Direction {
    East,
    West,
    North,
    South,
    Up,
    Down,
}

/// A speed in metres per second and the direction it is reported along.
#[derive(Clone, Copy, Debug, PartialEq, Eq, Structural)]
pub struct SpeedAlong {
    pub speed: Scalar,
    pub direction: Direction,
}

/// The three parts of a velocity, in the order in which they are shown.
#[derive(Clone, Copy, Debug, PartialEq, Eq, Structural)]
pub struct VelocityReading {
    pub first: SpeedAlong,
    pub second: SpeedAlong,
    pub third: SpeedAlong,
}

/// The name under which a classification is shown.
pub open spec fn classification_text(classification: Classification) -> Seq<char> {
    match classification {
        Classification::Gcs => "GCS"@,
        Classification::Other => "Other"@,
        Classification::Uav => "UAV"@,
        Classification::Unknown => "Unknown"@,
    }
}

/// The word for an alarm that is active, and for one that is not.
pub open spec fn alarm_text(active: bool) -> Seq<char> {
    if active {
        "On"@
    } else {
        "Off"@
    }
}

/// The word for a direction.
pub open spec fn direction_text(direction: Direction) -> Seq<char> {
    match direction {
        Direction::East => "east"@,
        Direction::West => "west"@,
        Direction::North => "north"@,
        Direction::South => "south"@,
        Direction::Up => "up"@,
        Direction::Down => "down"@,
    }
}

/// The text shown for an identification, or for the lack of one.
pub open spec fn identification_shown(identification: Option<String>) -> Seq<char> {
    match identification {
        Some(text) => text@,
        None => "<i>empty</i>"@,
    }
}

/// The name shown for a track, or for one without a name.
pub open spec fn track_name_shown(name: Option<String>) -> Seq<char> {
    match name {
        Some(text) => text@,
        None => "Unnamed track"@,
    }
}

/// The name shown for a detection set, or for one without a name.
pub open spec fn detection_name_shown(name: Option<String>) -> Seq<char> {
    match name {
        Some(text) => text@,
        None => "Unnamed detection set"@,
    }
}

/// The alarm of a record that may have none: no alarm is an alarm that is
/// off, with certainty 0.
pub open spec fn alarm_or_off(alarm: Option<Alarm>) -> Alarm {
    match alarm {
        Some(a) => a,
        None => Alarm { active: false, certainty: Scalar::zero() },
    }
}

/// The direction on the side of a number's sign.
pub open spec fn side(value: Scalar, positive: Direction, negative: Direction) -> Direction {
    if value.sign_positive() {
        positive
    } else {
        negative
    }
}

/// A velocity as it is shown with a single record: east or west, north or
/// south, up or down, each with the speed without its sign.
pub open spec fn reading_of(v: Velocity) -> VelocityReading {
    VelocityReading {
        first: SpeedAlong {
            speed: v.east.magnitude(),
            direction: side(v.east, Direction::East, Direction::West),
        },
        second: SpeedAlong {
            speed: v.north.magnitude(),
            direction: side(v.north, Direction::North, Direction::South),
        },
        third: SpeedAlong {
            speed: v.up.magnitude(),
            direction: side(v.up, Direction::Up, Direction::Down),
        },
    }
}

/// A velocity as it is shown along a trajectory: up or down, east or west,
/// north or south, each with the speed as it stands, sign included.
pub open spec fn trajectory_reading_of(v: Velocity) -> VelocityReading {
    VelocityReading {
        first: SpeedAlong { speed: v.up, direction: side(v.up, Direction::Up, Direction::Down) },
        second: SpeedAlong {
            speed: v.east,
            direction: side(v.east, Direction::East, Direction::West),
        },
        third: SpeedAlong {
            speed: v.north,
            direction: side(v.north, Direction::North, Direction::South),
        },
    }
}

/// The name under which a classification is shown.
pub fn classification_label(classification: Classification) -> (label: &'static str)
    ensures
        label@ == classification_text(classification),
{
    match classification {
        Classification::Gcs => "GCS",
        Classification::Other => "Other",
        Classification::Uav => "UAV",
        Classification::Unknown => "Unknown",
    }
}

/// `On` for an alarm that is active, `Off` for one that is not.
pub fn alarm_label(active: bool) -> (label: &'static str)
    ensures
        label@ == alarm_text(active),
{
    if active {
        "On"
    } else {
        "Off"
    }
}

/// The word for a direction.
pub fn direction_label(direction: Direction) -> (label: &'static str)
    ensures
        label@ == direction_text(direction),
{
    match direction {
        Direction::East => "east",
        Direction::West => "west",
        Direction::North => "north",
        Direction::South => "south",
        Direction::Up => "up",
        Direction::Down => "down",
    }
}

/// The identification of a record, or the text that stands for none.
pub fn identification_text<'a>(identification: &'a Option<String>) -> (text: &'a str)
    ensures
        text@ == identification_shown(*identification),
{
    match identification {
        Some(given) => given.as_str(),
        None => "<i>empty</i>",
    }
}

/// The name of a track, or the text that stands for none.
pub fn track_name<'a>(name: &'a Option<String>) -> (text: &'a str)
    ensures
        text@ == track_name_shown(*name),
{
    match name {
        Some(given) => given.as_str(),
        None => "Unnamed track",
    }
}

/// The name of a detection set, or the text that stands for none.
pub fn detection_name<'a>(name: &'a Option<String>) -> (text: &'a str)
    ensures
        text@ == detection_name_shown(*name),
{
    match name {
        Some(given) => given.as_str(),
        None => "Unnamed detection set",
    }
}

/// The alarm of a record that may have none.
pub fn effective_alarm(alarm: Option<Alarm>) -> (shown: Alarm)
    ensures
        shown == alarm_or_off(alarm),
{
    match alarm {
        Some(a) => a,
        None => Alarm { active: false, certainty: Scalar { bits: 0 } },
    }
}

fn towards(value: Scalar, positive: Direction, negative: Direction) -> (direction: Direction)
    ensures
        direction == side(value, positive, negative),
{
    if value.is_sign_positive() {
        positive
    } else {
        negative
    }
}

/// Reads a velocity as it is shown with a single record.
pub fn velocity_reading(v: Velocity) -> (reading: VelocityReading)
    ensures
        reading == reading_of(v),
{
    VelocityReading {
        first: SpeedAlong {
            speed: v.east.abs(),
            direction: towards(v.east, Direction::East, Direction::West),
        },
        second: SpeedAlong {
            speed: v.north.abs(),
            direction: towards(v.north, Direction::North, Direction::South),
        },
        third: SpeedAlong {
            speed: v.up.abs(),
            direction: towards(v.up, Direction::Up, Direction::Down),
        },
    }
}

/// Reads a velocity as it is shown along a trajectory.
pub fn trajectory_velocity_reading(v: Velocity) -> (reading: VelocityReading)
    ensures
        reading == trajectory_reading_of(v),
{
    VelocityReading {
        first: SpeedAlong { speed: v.up, direction: towards(v.up, Direction::Up, Direction::Down) },
        second: SpeedAlong {
            speed: v.east,
            direction: towards(v.east, Direction::East, Direction::West),
        },
        third: SpeedAlong {
            speed: v.north,
            direction: towards(v.north, Direction::North, Direction::South),
        },
    }
}

/// What is shown beside the shape of one record: each text as it is
/// shown, the certainty of the alarm as a number between 0 and 1, and the
/// velocity as it is read.
#[derive(Clone, Copy, Debug)]
pub struct RecordData<'a> {
    pub record_number: u64,
    pub classification: &'static str,
    pub alarm: &'static str,
    pub certainty: Scalar,
    pub identification: &'a str,
    pub velocity: Option<VelocityReading>,
}

/// Whether `data` shows a record with these contents.
pub open spec fn shows(
    data: RecordData,
    record_number: u64,
    classification: Classification,
    alarm: Alarm,
    identification: Option<String>,
    velocity: Option<VelocityReading>,
) -> bool {
    &&& data.record_number == record_number
    &&& data.classification@ == classification_text(classification)
    &&& data.alarm@ == alarm_text(alarm.active)
    &&& data.certainty == alarm.certainty
    &&& data.identification@ == identification_shown(identification)
    &&& data.velocity == velocity
}

/// The reading of a velocity that may be missing, as it is shown with a
/// single record.
pub open spec fn reading_if_given(velocity: Option<Velocity>) -> Option<VelocityReading> {
    match velocity {
        Some(v) => Some(reading_of(v)),
        None => None,
    }
}

/// The reading of a velocity that may be missing, as it is shown along a
/// trajectory.
pub open spec fn trajectory_reading_if_given(velocity: Option<Velocity>) -> Option<
    VelocityReading,
> {
    match velocity {
        Some(v) => Some(trajectory_reading_of(v)),
        None => None,
    }
}

/// What is shown beside a record of a detection set. A record without an
/// alarm is shown with its alarm off and a certainty of 0.
pub fn detection_record_data<'a>(record: &'a DetectionRecord) -> (data: RecordData<'a>)
    ensures
        shows(
            data,
            record.record_number,
            record.classification,
            alarm_or_off(record.alarm),
            record.identification,
            reading_if_given(record.velocity),
        ),
{
    let alarm = effective_alarm(record.alarm);
    RecordData {
        record_number: record.record_number,
        classification: classification_label(record.classification),
        alarm: alarm_label(alarm.active),
        certainty: alarm.certainty,
        identification: identification_text(&record.identification),
        velocity: match record.velocity {
            Some(v) => Some(velocity_reading(v)),
            None => None,
        },
    }
}

/// What is shown beside a record of a track that is drawn on its own.
pub fn tracking_record_data<'a>(record: &'a TrackingRecord) -> (data: RecordData<'a>)
    ensures
        shows(
            data,
            record.record_number,
            record.classification,
            record.alarm,
            record.identification,
            reading_if_given(record.velocity),
        ),
{
    RecordData {
        record_number: record.record_number,
        classification: classification_label(record.classification),
        alarm: alarm_label(record.alarm.active),
        certainty: record.alarm.certainty,
        identification: identification_text(&record.identification),
        velocity: match record.velocity {
            Some(v) => Some(velocity_reading(v)),
            None => None,
        },
    }
}

/// What is shown along a trajectory: one entry for each of its records,
/// in their order.
pub fn trajectory_record_data<'a>(records: &'a [TrackingRecord]) -> (data: Vec<
    RecordData<'a>,
>)
    ensures
        data@.len() == records@.len(),
        forall|j: int|
            0 <= j < data@.len() ==> shows(
                #[trigger] data@[j],
                records@[j].record_number,
                records@[j].classification,
                records@[j].alarm,
                records@[j].identification,
                trajectory_reading_if_given(records@[j].velocity),
            ),
{
    let mut data: Vec<RecordData<'a>> = Vec::new();
    let mut i: usize = 0;
    while i < records.len()
        invariant
            i <= records@.len(),
            data@.len() == i,
            forall|j: int|
                0 <= j < i ==> shows(
                    #[trigger] data@[j],
                    records@[j].record_number,
                    records@[j].classification,
                    records@[j].alarm,
                    records@[j].identification,
                    trajectory_reading_if_given(records@[j].velocity),
                ),
        decreases records@.len() - i,
    {
        let record = &records[i];
        data.push(
            RecordData {
                record_number: record.record_number,
                classification: classification_label(record.classification),
                alarm: alarm_label(record.alarm.active),
                certainty: record.alarm.certainty,
                identification: identification_text(&record.identification),
                velocity: match record.velocity {
                    Some(v) => Some(trajectory_velocity_reading(v)),
                    None => None,
                },
            },
        );
        i = i + 1;
    }
    data
}

} // verus!
