use track2kml::geometry::altitude_mode_label;
use track2kml::timestamp::MAX_TIMESTAMP_MILLIS;
use track2kml::{
    draw_detection, draw_document, draw_track, Alarm, AltitudeMode, Arc, Classification,
    Coordinate, Database, Detection, DetectionRecord, GeometryPrimitive, Location, Position2d,
    Position3d, Quad, Scalar, TimeConversionError, Track, TrackingRecord, WriteAsKmlOptions,
};

fn s(value: f64) -> Scalar {
    Scalar::from_bits(value.to_bits())
}

fn at(lon: f64, lat: f64, height: f64) -> Position3d {
    Position3d { lat: s(lat), lon: s(lon), height: s(height) }
}

fn record(time: u64, location: Location) -> TrackingRecord {
    TrackingRecord {
        time,
        record_number: 7,
        classification: Classification::Uav,
        alarm: Alarm { active: false, certainty: s(0.0) },
        location,
        velocity: None,
        identification: None,
        cuas_location: None,
    }
}

fn sighting(time: u64, location: Option<Location>) -> DetectionRecord {
    DetectionRecord {
        time,
        record_number: 7,
        classification: Classification::Other,
        alarm: None,
        location,
        velocity: None,
        identification: None,
        cuas_location: None,
    }
}

fn track(records: Vec<TrackingRecord>) -> Track {
    Track { name: None, uav_home_location: None, records }
}

fn detection(records: Vec<DetectionRecord>) -> Detection {
    Detection { name: None, uas_id: None, records }
}

const BAD: u64 = MAX_TIMESTAMP_MILLIS + 1;

#[test]
fn draw_track_writes_every_time() {
    let origin = at(4.0, 50.0, 10.0);
    let records = vec![
        record(0, Location::Position3d(at(4.1, 50.1, 30.0))),
        record(1_546_300_800_000, Location::Bearing { bearing: s(12.0) }),
    ];
    let drawing = draw_track(&records, origin, s(500.0)).unwrap();
    assert_eq!(drawing.times, vec!["1970-01-01T00:00:00Z", "2019-01-01T00:00:00Z"]);
    assert_eq!(drawing.segmentation.runs.len(), 1);
    assert_eq!(drawing.segmentation.events.len(), 1);
    assert_eq!(drawing.segmentation.events[0].index, 1);
}

#[test]
fn draw_track_fails_at_the_first_bad_time() {
    let origin = at(4.0, 50.0, 10.0);
    let records = vec![
        record(0, Location::Position3d(at(4.1, 50.1, 30.0))),
        record(BAD + 5, Location::Bearing { bearing: s(12.0) }),
        record(BAD, Location::Position3d(at(4.1, 50.1, 30.0))),
    ];
    match draw_track(&records, origin, s(500.0)) {
        Err(e) => assert_eq!(e, TimeConversionError { millis: BAD + 5 }),
        Ok(_) => panic!("a time beyond the year 9999 has no text"),
    }
    let empty = draw_track(&vec![], origin, s(500.0)).unwrap();
    assert_eq!(empty.times.len(), 0);
    assert_eq!(empty.segmentation.runs.len(), 0);
    assert_eq!(empty.segmentation.events.len(), 0);
}

#[test]
fn draw_detection_looks_at_located_records_only() {
    let origin = at(4.0, 50.0, 10.0);
    let records = vec![
        sighting(BAD, None),
        sighting(1_546_300_800_000, Some(Location::Bearing { bearing: s(12.0) })),
        sighting(0, Some(Location::Position3d(at(4.1, 50.1, 30.0)))),
    ];
    let drawing = draw_detection(&records, origin, s(500.0)).unwrap();
    let indices: Vec<usize> = drawing.events.iter().map(|e| e.index).collect();
    assert_eq!(indices, vec![1, 2]);
    assert_eq!(drawing.times, vec!["2019-01-01T00:00:00Z", "1970-01-01T00:00:00Z"]);

    let failing = vec![
        sighting(BAD, None),
        sighting(0, Some(Location::Bearing { bearing: s(12.0) })),
        sighting(BAD + 1, Some(Location::Bearing { bearing: s(12.0) })),
        sighting(BAD + 2, Some(Location::Bearing { bearing: s(12.0) })),
    ];
    match draw_detection(&failing, origin, s(500.0)) {
        Err(e) => assert_eq!(e, TimeConversionError { millis: BAD + 1 }),
        Ok(_) => panic!("a located record with a bad time cannot be drawn"),
    }
}

#[test]
fn draw_document_draws_sets_then_tracks() {
    let database = Database {
        static_cuas_location: at(4.0, 50.0, 10.0),
        detection: vec![
            detection(vec![sighting(0, Some(Location::Bearing { bearing: s(1.0) }))]),
            detection(vec![]),
        ],
        tracks: vec![track(vec![
            record(0, Location::Position2d(Position2d { lat: s(50.0), lon: s(4.0) })),
            record(1000, Location::Position3d(at(4.1, 50.1, 30.0))),
        ])],
    };
    let drawing = draw_document(&database, s(500.0)).unwrap();
    assert_eq!(drawing.detections.len(), 2);
    assert_eq!(drawing.detections[0].events.len(), 1);
    assert_eq!(drawing.detections[1].events.len(), 0);
    assert_eq!(drawing.tracks.len(), 1);
    assert_eq!(drawing.tracks[0].times, vec!["1970-01-01T00:00:00Z", "1970-01-01T00:00:01Z"]);
    assert_eq!(drawing.tracks[0].segmentation.runs.len(), 1);
    assert_eq!(drawing.tracks[0].segmentation.runs[0].mode, AltitudeMode::ClampToGround);
}

#[test]
fn draw_document_has_no_partial_drawing() {
    let database = Database {
        static_cuas_location: at(4.0, 50.0, 10.0),
        detection: vec![
            detection(vec![sighting(0, Some(Location::Bearing { bearing: s(1.0) }))]),
            detection(vec![sighting(BAD + 9, Some(Location::Bearing { bearing: s(1.0) }))]),
        ],
        tracks: vec![track(vec![record(BAD, Location::Bearing { bearing: s(1.0) })])],
    };
    match draw_document(&database, s(500.0)) {
        Err(e) => assert_eq!(e.millis, BAD + 9),
        Ok(_) => panic!("one bad time ends the conversion"),
    }
    let tracks_only = Database {
        static_cuas_location: at(4.0, 50.0, 10.0),
        detection: vec![detection(vec![sighting(BAD + 9, None)])],
        tracks: vec![
            track(vec![]),
            track(vec![record(BAD, Location::Bearing { bearing: s(1.0) })]),
        ],
    };
    match draw_document(&tracks_only, s(500.0)) {
        Err(e) => assert_eq!(e.millis, BAD),
        Ok(_) => panic!("one bad time ends the conversion"),
    }
    let empty =
        Database { static_cuas_location: at(4.0, 50.0, 10.0), detection: vec![], tracks: vec![] };
    let drawing = draw_document(&empty, s(500.0)).unwrap();
    assert_eq!(drawing.detections.len(), 0);
    assert_eq!(drawing.tracks.len(), 0);
}

#[test]
fn coordinates_are_written_per_kind() {
    let a = at(1.0, 2.0, 3.0);
    let b = at(5.0, 6.0, 7.0);
    let point = GeometryPrimitive::Point { position: a, mode: AltitudeMode::Absolute };
    assert_eq!(point.coordinates(), vec![Coordinate { lon: s(1.0), lat: s(2.0), height: Some(s(3.0)) }]);
    let ray = GeometryPrimitive::Ray { from: a, to: b, mode: AltitudeMode::Absolute };
    assert_eq!(
        ray.coordinates(),
        vec![
            Coordinate { lon: s(1.0), lat: s(2.0), height: Some(s(3.0)) },
            Coordinate { lon: s(5.0), lat: s(6.0), height: Some(s(7.0)) }
        ]
    );
    let sector = GeometryPrimitive::SectorPolygon { ring: vec![a, b] };
    assert_eq!(
        sector.coordinates(),
        vec![
            Coordinate { lon: s(1.0), lat: s(2.0), height: None },
            Coordinate { lon: s(5.0), lat: s(6.0), height: None }
        ]
    );
    assert_eq!(altitude_mode_label(AltitudeMode::Absolute), "absolute");
    assert_eq!(altitude_mode_label(AltitudeMode::ClampToGround), "clampToGround");
}

#[test]
fn read_courageous() {
    let every_location = vec![
        Location::Position3d(at(4.1, 50.1, 30.0)),
        Location::Position2d(Position2d { lat: s(50.0), lon: s(4.0) }),
        Location::BearingElevationDistance { bearing: s(10.0), elevation: s(5.0), distance: s(80.0) },
        Location::BearingElevation { bearing: s(10.0), elevation: s(5.0) },
        Location::Bearing { bearing: s(10.0) },
        Location::Quad { quad: Quad::South },
        Location::Arc(Arc { from: s(10.0), to: s(30.0) }),
    ];
    let file = Database {
        static_cuas_location: at(4.0, 50.0, 10.0),
        detection: vec![detection(
            every_location.iter().map(|l| sighting(1_700_000_000_000, Some(*l))).collect(),
        )],
        tracks: vec![track(
            every_location.iter().map(|l| record(1_700_000_000_000, *l)).collect(),
        )],
    };
    let options = WriteAsKmlOptions::default();
    let drawing = draw_document(&file, options.cuas_range).unwrap();
    assert_eq!(drawing.detections[0].events.len(), 7);
    assert_eq!(drawing.tracks[0].segmentation.events.len(), 5);
    assert_eq!(drawing.tracks[0].segmentation.runs.len(), 1);
    assert_eq!(drawing.tracks[0].times.len(), 7);
}
