use track2kml::ext_data::{
    alarm_label, classification_label, detection_name, direction_label, effective_alarm,
    identification_text, track_name, trajectory_velocity_reading, velocity_reading,
    detection_record_data, trajectory_record_data, tracking_record_data,
    Direction, SpeedAlong, VelocityReading,
};
use track2kml::options::{override_origin, range_or_default, WriteAsKmlOptions};
use track2kml::{
    Alarm, Classification, Database, DetectionRecord, Location, Position3d, Scalar, TrackingRecord,
    Velocity,
};

fn s(value: f64) -> Scalar {
    Scalar::from_bits(value.to_bits())
}

#[test]
fn labels_of_a_record() {
    assert_eq!(classification_label(Classification::Gcs), "GCS");
    assert_eq!(classification_label(Classification::Other), "Other");
    assert_eq!(classification_label(Classification::Uav), "UAV");
    assert_eq!(classification_label(Classification::Unknown), "Unknown");
    assert_eq!(alarm_label(true), "On");
    assert_eq!(alarm_label(false), "Off");
    assert_eq!(direction_label(Direction::East), "east");
    assert_eq!(direction_label(Direction::West), "west");
    assert_eq!(direction_label(Direction::North), "north");
    assert_eq!(direction_label(Direction::South), "south");
    assert_eq!(direction_label(Direction::Up), "up");
    assert_eq!(direction_label(Direction::Down), "down");
    assert_eq!(identification_text(&Some("D-1234".to_string())), "D-1234");
    assert_eq!(identification_text(&None), "<i>empty</i>");
    assert_eq!(track_name(&Some("Alpha".to_string())), "Alpha");
    assert_eq!(track_name(&None), "Unnamed track");
    assert_eq!(detection_name(&Some("Beta".to_string())), "Beta");
    assert_eq!(detection_name(&None), "Unnamed detection set");
}

#[test]
fn alarm_of_a_detection_defaults_to_off() {
    let given = Alarm { active: true, certainty: s(0.75) };
    assert_eq!(effective_alarm(Some(given)), given);
    assert_eq!(effective_alarm(None), Alarm { active: false, certainty: s(0.0) });
}

#[test]
fn velocity_is_read_by_sign() {
    let v = Velocity { east: s(-3.0), north: s(4.0), up: s(-0.5) };
    assert_eq!(
        velocity_reading(v),
        VelocityReading {
            first: SpeedAlong { speed: s(3.0), direction: Direction::West },
            second: SpeedAlong { speed: s(4.0), direction: Direction::North },
            third: SpeedAlong { speed: s(0.5), direction: Direction::Down },
        }
    );
    assert_eq!(
        trajectory_velocity_reading(v),
        VelocityReading {
            first: SpeedAlong { speed: s(-0.5), direction: Direction::Down },
            second: SpeedAlong { speed: s(-3.0), direction: Direction::West },
            third: SpeedAlong { speed: s(4.0), direction: Direction::North },
        }
    );
    let still = Velocity { east: s(0.0), north: s(-0.0), up: s(0.0) };
    assert_eq!(velocity_reading(still).first.direction, Direction::East);
    assert_eq!(velocity_reading(still).second.direction, Direction::South);
    assert_eq!(velocity_reading(still).second.speed, s(0.0));
    assert_eq!(velocity_reading(still).third.direction, Direction::Up);
}

#[test]
fn options_are_built_step_by_step() {
    let options = WriteAsKmlOptions::default();
    assert!(!options.disable_track_icons);
    assert_eq!(options.cuas_range, s(0.0));
    let options = options.disable_track_icons(true).cuas_range(s(250.0));
    assert!(options.disable_track_icons);
    assert_eq!(options.cuas_range, s(250.0));
    let options = options.disable_track_icons(false);
    assert!(!options.disable_track_icons);
    assert_eq!(options.cuas_range, s(250.0));
}

#[test]
fn range_defaults_to_a_hundred_metres() {
    assert_eq!(range_or_default(None), s(100.0));
    assert_eq!(range_or_default(Some(s(2500.0))), s(2500.0));
    assert_eq!(range_or_default(Some(s(0.0))), s(0.0));
}

#[test]
fn origin_is_replaced_only_where_one_is_named() {
    let first = Position3d { lat: s(50.0), lon: s(4.0), height: s(10.0) };
    let second = Position3d { lat: s(51.0), lon: s(5.0), height: s(20.0) };
    let mut database = Database { static_cuas_location: first, detection: vec![], tracks: vec![] };
    override_origin(&mut database, None);
    assert_eq!(database.static_cuas_location, first);
    override_origin(&mut database, Some(second));
    assert_eq!(database.static_cuas_location, second);
    assert_eq!(database.detection.len(), 0);
    assert_eq!(database.tracks.len(), 0);
}

#[test]
fn record_data_of_a_detection() {
    let bare = DetectionRecord {
        time: 0,
        record_number: 12,
        classification: Classification::Gcs,
        alarm: None,
        location: None,
        velocity: None,
        identification: None,
        cuas_location: None,
    };
    let data = detection_record_data(&bare);
    assert_eq!(data.record_number, 12);
    assert_eq!(data.classification, "GCS");
    assert_eq!(data.alarm, "Off");
    assert_eq!(data.certainty, s(0.0));
    assert_eq!(data.identification, "<i>empty</i>");
    assert_eq!(data.velocity, None);

    let full = DetectionRecord {
        alarm: Some(Alarm { active: true, certainty: s(0.75) }),
        velocity: Some(Velocity { east: s(-3.0), north: s(4.0), up: s(1.0) }),
        identification: Some("D-1234".to_string()),
        ..bare
    };
    let data = detection_record_data(&full);
    assert_eq!(data.alarm, "On");
    assert_eq!(data.certainty, s(0.75));
    assert_eq!(data.identification, "D-1234");
    assert_eq!(data.velocity, Some(velocity_reading(full.velocity.unwrap())));
}

#[test]
fn record_data_of_a_track() {
    let first = TrackingRecord {
        time: 0,
        record_number: 3,
        classification: Classification::Uav,
        alarm: Alarm { active: true, certainty: s(1.0) },
        location: Location::Bearing { bearing: s(1.0) },
        velocity: Some(Velocity { east: s(-3.0), north: s(4.0), up: s(-1.0) }),
        identification: None,
        cuas_location: None,
    };
    let second = TrackingRecord {
        record_number: 4,
        classification: Classification::Unknown,
        alarm: Alarm { active: false, certainty: s(0.25) },
        velocity: None,
        identification: Some("kite".to_string()),
        ..first.clone()
    };
    let alone = tracking_record_data(&first);
    assert_eq!(alone.record_number, 3);
    assert_eq!(alone.classification, "UAV");
    assert_eq!(alone.alarm, "On");
    assert_eq!(alone.certainty, s(1.0));
    assert_eq!(alone.identification, "<i>empty</i>");
    assert_eq!(alone.velocity.unwrap().first, SpeedAlong { speed: s(3.0), direction: Direction::West });

    let records = vec![first, second];
    let along = trajectory_record_data(&records);
    assert_eq!(along.len(), 2);
    assert_eq!(along[0].record_number, 3);
    assert_eq!(
        along[0].velocity.unwrap().first,
        SpeedAlong { speed: s(-1.0), direction: Direction::Down }
    );
    assert_eq!(along[1].record_number, 4);
    assert_eq!(along[1].classification, "Unknown");
    assert_eq!(along[1].alarm, "Off");
    assert_eq!(along[1].certainty, s(0.25));
    assert_eq!(along[1].identification, "kite");
    assert_eq!(along[1].velocity, None);
    assert_eq!(trajectory_record_data(&[]).len(), 0);
}
