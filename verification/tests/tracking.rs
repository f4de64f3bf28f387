use track2kml::detection::detection_shapes;
use track2kml::model::origin_of;
use track2kml::tracking::{segment, Event};
use track2kml::{
    resolve, Alarm, AltitudeMode, Classification, DetectionRecord, Location, Position2d,
    Position3d, Quad, Scalar, Shape, TrackingRecord, Vertex,
};

fn s(value: f64) -> Scalar {
    Scalar::from_bits(value.to_bits())
}

fn at(lon: f64, lat: f64, height: f64) -> Position3d {
    Position3d { lat: s(lat), lon: s(lon), height: s(height) }
}

fn flat(lon: f64, lat: f64) -> Position2d {
    Position2d { lat: s(lat), lon: s(lon) }
}

fn record(number: u64, location: Location) -> TrackingRecord {
    TrackingRecord {
        time: 1_546_300_800_000 + number,
        record_number: number,
        classification: Classification::Uav,
        alarm: Alarm { active: true, certainty: s(0.5) },
        location,
        velocity: None,
        identification: None,
        cuas_location: None,
    }
}

fn sighting(number: u64, location: Option<Location>) -> DetectionRecord {
    DetectionRecord {
        time: 1_546_300_800_000 + number,
        record_number: number,
        classification: Classification::Unknown,
        alarm: None,
        location,
        velocity: None,
        identification: None,
        cuas_location: None,
    }
}

#[test]
fn segment_splits_positions_around_a_bearing() {
    let origin = at(4.0, 50.0, 10.0);
    let records = vec![
        record(0, Location::Position3d(at(4.1, 50.1, 30.0))),
        record(1, Location::Position3d(at(4.2, 50.2, 40.0))),
        record(2, Location::Bearing { bearing: s(12.0) }),
        record(3, Location::Position2d(flat(4.3, 50.3))),
        record(4, Location::Position2d(flat(4.4, 50.4))),
    ];
    let result = segment(&records, origin, s(500.0));

    assert_eq!(result.runs.len(), 2);
    assert_eq!(result.runs[0].start, 0);
    assert_eq!(result.runs[0].len(), 2);
    assert_eq!(result.runs[0].mode, AltitudeMode::Absolute);
    assert_eq!(result.runs[0].points, vec![at(4.1, 50.1, 30.0), at(4.2, 50.2, 40.0)]);
    assert_eq!(result.runs[1].start, 3);
    assert_eq!(result.runs[1].len(), 2);
    assert_eq!(result.runs[1].mode, AltitudeMode::ClampToGround);
    assert_eq!(result.runs[1].points, vec![at(4.3, 50.3, 0.0), at(4.4, 50.4, 0.0)]);

    assert_eq!(
        result.events,
        vec![Event { index: 2, shape: resolve(Location::Bearing { bearing: s(12.0) }, origin, s(500.0)) }]
    );
}

#[test]
fn segment_keeps_the_mode_of_the_first_record() {
    let origin = at(4.0, 50.0, 10.0);
    let records = vec![
        record(0, Location::Position3d(at(4.1, 50.1, 50.0))),
        record(1, Location::Position2d(flat(4.2, 50.2))),
    ];
    let result = segment(&records, origin, s(500.0));
    assert_eq!(result.events.len(), 0);
    assert_eq!(result.runs.len(), 1);
    assert_eq!(result.runs[0].mode, AltitudeMode::Absolute);
    assert_eq!(result.runs[0].points, vec![at(4.1, 50.1, 50.0), at(4.2, 50.2, 0.0)]);
    assert_eq!(result.runs[0].points[1].height.to_bits(), 0);

    let turned = vec![
        record(0, Location::Position2d(flat(4.2, 50.2))),
        record(1, Location::Position3d(at(4.1, 50.1, 50.0))),
    ];
    let result = segment(&turned, origin, s(500.0));
    assert_eq!(result.runs.len(), 1);
    assert_eq!(result.runs[0].mode, AltitudeMode::ClampToGround);
    assert_eq!(result.runs[0].points, vec![at(4.2, 50.2, 0.0), at(4.1, 50.1, 50.0)]);
}

#[test]
fn segment_of_an_empty_track_is_empty() {
    let result = segment(&vec![], at(4.0, 50.0, 10.0), s(500.0));
    assert_eq!(result.runs.len(), 0);
    assert_eq!(result.events.len(), 0);
}

#[test]
fn segment_of_events_only_has_no_run() {
    let origin = at(4.0, 50.0, 10.0);
    let records = vec![
        record(0, Location::Bearing { bearing: s(1.0) }),
        record(1, Location::Quad { quad: Quad::East }),
        record(2, Location::BearingElevation { bearing: s(1.0), elevation: s(2.0) }),
    ];
    let result = segment(&records, origin, s(500.0));
    assert_eq!(result.runs.len(), 0);
    let indices: Vec<usize> = result.events.iter().map(|e| e.index).collect();
    assert_eq!(indices, vec![0, 1, 2]);
    assert_eq!(result.events[1].shape, resolve(Location::Quad { quad: Quad::East }, origin, s(500.0)));
}

#[test]
fn segment_makes_a_run_of_a_single_position() {
    let origin = at(4.0, 50.0, 10.0);
    let records = vec![
        record(0, Location::Bearing { bearing: s(1.0) }),
        record(1, Location::Position2d(flat(4.2, 50.2))),
        record(2, Location::Bearing { bearing: s(2.0) }),
        record(3, Location::Position3d(at(4.1, 50.1, 50.0))),
    ];
    let result = segment(&records, origin, s(500.0));
    assert_eq!(result.runs.len(), 2);
    assert_eq!((result.runs[0].start, result.runs[0].len()), (1, 1));
    assert_eq!(result.runs[0].mode, AltitudeMode::ClampToGround);
    assert_eq!((result.runs[1].start, result.runs[1].len()), (3, 1));
    assert_eq!(result.runs[1].mode, AltitudeMode::Absolute);
    let indices: Vec<usize> = result.events.iter().map(|e| e.index).collect();
    assert_eq!(indices, vec![0, 2]);
}

#[test]
fn segment_resolves_events_from_the_record_s_own_sensor() {
    let origin = at(4.0, 50.0, 10.0);
    let own = at(5.0, 51.0, 20.0);
    let mut moved = record(1, Location::Bearing { bearing: s(7.0) });
    moved.cuas_location = Some(own);
    let records = vec![record(0, Location::Bearing { bearing: s(7.0) }), moved];
    let result = segment(&records, origin, s(500.0));
    assert_eq!(result.events.len(), 2);
    match (result.events[0].shape, result.events[1].shape) {
        (Shape::Ray { from: a, .. }, Shape::Ray { from: b, .. }) => {
            assert_eq!(a, origin);
            assert_eq!(b, own);
        }
        _ => panic!("a bearing is drawn as a ray"),
    }
    assert_eq!(origin_of(Some(own), origin), own);
    assert_eq!(origin_of(None, origin), origin);
}

#[test]
fn detection_shapes_skip_records_without_location() {
    let origin = at(4.0, 50.0, 10.0);
    let own = at(5.0, 51.0, 20.0);
    let mut moved = sighting(3, Some(Location::Bearing { bearing: s(7.0) }));
    moved.cuas_location = Some(own);
    let records = vec![
        sighting(0, None),
        sighting(1, Some(Location::Position2d(flat(4.2, 50.2)))),
        sighting(2, None),
        moved,
        sighting(4, Some(Location::Position3d(at(4.1, 50.1, 50.0)))),
    ];
    let events = detection_shapes(&records, origin, s(500.0));
    assert_eq!(
        events,
        vec![
            Event {
                index: 1,
                shape: Shape::Point {
                    at: Vertex::Known(at(4.2, 50.2, 0.0)),
                    mode: AltitudeMode::ClampToGround
                }
            },
            Event { index: 3, shape: resolve(Location::Bearing { bearing: s(7.0) }, own, s(500.0)) },
            Event {
                index: 4,
                shape: Shape::Point {
                    at: Vertex::Known(at(4.1, 50.1, 50.0)),
                    mode: AltitudeMode::Absolute
                }
            },
        ]
    );
    assert_eq!(detection_shapes(&vec![], origin, s(500.0)), vec![]);
    assert_eq!(detection_shapes(&vec![sighting(0, None)], origin, s(500.0)), vec![]);
}
