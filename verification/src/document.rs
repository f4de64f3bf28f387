//! Drawing a whole document.
//!
//! The detection sets are drawn first, then the tracks, each from the
//! document's sensor position and with the same range. A single time that
//! cannot be written as a date ends the conversion: there is no drawing of
//! a part of a document.

use crate::detection::{
    detection_is_drawable, draw_detection, first_bad_sighting, is_detection_drawing,
    DetectionDrawing,
};
use crate::model::{Database, Detection, Track};
use crate::scalar::Scalar;
use crate::timestamp::TimeConversionError;
use crate::tracking::{
    draw_track, first_bad_time, is_track_drawing, track_is_drawable, TrackDrawing,
};
use vstd::prelude::*;

verus! {

/// A document ready to be drawn: one drawing for each detection set and
/// one for each track, in the order of the document.
#[derive(Clone, Debug)]
pub struct DocumentDrawing {
    pub detections: Vec<DetectionDrawing>,
    pub tracks: Vec<TrackDrawing>,
}

/// Whether the first `upto` detection sets can be drawn.
pub open spec fn detections_are_drawable(sets: Seq<Detection>, upto: int) -> bool {
    forall|d: int| 0 <= d < upto ==> detection_is_drawable((#[trigger] sets[d]).records@)
}

/// Whether the first `upto` tracks can be drawn.
pub open spec fn tracks_are_drawable(tracks: Seq<Track>, upto: int) -> bool {
    forall|t: int| 0 <= t < upto ==> track_is_drawable((#[trigger] tracks[t]).records@)
}

/// Whether every time that the drawing of the document needs can be
/// written as a date.
pub open spec fn document_is_drawable(database: Database) -> bool {
    &&& detections_are_drawable(database.detection@, database.detection@.len() as int)
    &&& tracks_are_drawable(database.tracks@, database.tracks@.len() as int)
}

/// Whether `drawing` is the drawing of the document.
pub open spec fn is_document_drawing(
    database: Database,
    range: Scalar,
    drawing: DocumentDrawing,
) -> bool {
    &&& drawing.detections@.len() == database.detection@.len()
    &&& drawing.tracks@.len() == database.tracks@.len()
    &&& forall|d: int|
        0 <= d < drawing.detections@.len() ==> is_detection_drawing(
            database.detection@[d].records@,
            database.static_cuas_location,
            range,
            #[trigger] drawing.detections@[d],
        )
    &&& forall|t: int|
        0 <= t < drawing.tracks@.len() ==> is_track_drawing(
            database.tracks@[t].records@,
            database.static_cuas_location,
            range,
            #[trigger] drawing.tracks@[t],
        )
}

/// Whether `millis` is the time at which the drawing of the document
/// fails: the first time that cannot be written, in the first detection
/// set that cannot be drawn or, where all of them can, in the first track
/// that cannot.
pub open spec fn is_first_failure(database: Database, millis: u64) -> bool {
    ||| exists|d: int, index: int|
        {
            &&& 0 <= d < database.detection@.len()
            &&& detections_are_drawable(database.detection@, d)
            &&& #[trigger] first_bad_sighting(database.detection@[d].records@, index)
            &&& millis == database.detection@[d].records@[index].time
        }
    ||| exists|t: int, index: int|
        {
            &&& 0 <= t < database.tracks@.len()
            &&& detections_are_drawable(database.detection@, database.detection@.len() as int)
            &&& tracks_are_drawable(database.tracks@, t)
            &&& #[trigger] first_bad_time(database.tracks@[t].records@, index)
            &&& millis == database.tracks@[t].records@[index].time
        }
}

/// Draws every detection set and every track of a document, with rays
/// `cuas_range` metres long.
pub fn draw_document(
    database: &Database,
    cuas_range: Scalar,
) -> (outcome: Result<DocumentDrawing, TimeConversionError>)
    ensures
        outcome.is_ok() <==> document_is_drawable(*database),
        outcome matches Ok(drawing) ==> is_document_drawing(*database, cuas_range, drawing),
        outcome matches Err(e) ==> is_first_failure(*database, e.millis),
{
    let origin = database.static_cuas_location;
    let mut detections: Vec<DetectionDrawing> = Vec::new();
    let mut d: usize = 0;
    while d < database.detection.len()
        invariant
            d <= database.detection@.len(),
            detections@.len() == d,
            origin == database.static_cuas_location,
            detections_are_drawable(database.detection@, d as int),
            forall|j: int|
                0 <= j < d ==> is_detection_drawing(
                    database.detection@[j].records@,
                    origin,
                    cuas_range,
                    #[trigger] detections@[j],
                ),
        decreases database.detection@.len() - d,
    {
        match draw_detection(&database.detection[d].records, origin, cuas_range) {
            Ok(drawing) => {
                let ghost before = detections@;
                detections.push(drawing);
                assert forall|j: int| 0 <= j < d + 1 implies is_detection_drawing(
                    database.detection@[j].records@,
                    origin,
                    cuas_range,
                    #[trigger] detections@[j],
                ) by {
                    if j < d {
                        assert(detections@[j] == before[j]);
                    }
                }
            },
            Err(e) => {
                proof {
                    let records = database.detection@[d as int].records@;
                    let index = choose|index: int| #[trigger]
                        first_bad_sighting(records, index) && e.millis == records[index].time;
                    assert(first_bad_sighting(database.detection@[d as int].records@, index));
                    assert(!detection_is_drawable(database.detection@[d as int].records@));
                }
                return Err(e);
            },
        }
        d = d + 1;
    }
    let mut tracks: Vec<TrackDrawing> = Vec::new();
    let mut t: usize = 0;
    while t < database.tracks.len()
        invariant
            t <= database.tracks@.len(),
            tracks@.len() == t,
            origin == database.static_cuas_location,
            detections_are_drawable(database.detection@, database.detection@.len() as int),
            tracks_are_drawable(database.tracks@, t as int),
            forall|j: int|
                0 <= j < t ==> is_track_drawing(
                    database.tracks@[j].records@,
                    origin,
                    cuas_range,
                    #[trigger] tracks@[j],
                ),
        decreases database.tracks@.len() - t,
    {
        match draw_track(&database.tracks[t].records, origin, cuas_range) {
            Ok(drawing) => {
                let ghost before = tracks@;
                tracks.push(drawing);
                assert forall|j: int| 0 <= j < t + 1 implies is_track_drawing(
                    database.tracks@[j].records@,
                    origin,
                    cuas_range,
                    #[trigger] tracks@[j],
                ) by {
                    if j < t {
                        assert(tracks@[j] == before[j]);
                    }
                }
            },
            Err(e) => {
                proof {
                    let records = database.tracks@[t as int].records@;
                    let index = choose|index: int| #[trigger]
                        first_bad_time(records, index) && e.millis == records[index].time;
                    assert(first_bad_time(database.tracks@[t as int].records@, index));
                    assert(!track_is_drawable(database.tracks@[t as int].records@));
                }
                return Err(e);
            },
        }
        t = t + 1;
    }
    Ok(DocumentDrawing { detections, tracks })
}

/// A document without detection sets and without tracks is drawn, and its
/// drawing is empty.
pub proof fn empty_document_is_drawable(database: Database, range: Scalar, drawing: DocumentDrawing)
    requires
        database.detection@.len() == 0,
        database.tracks@.len() == 0,
    ensures
        document_is_drawable(database),
        is_document_drawing(database, range, drawing) ==> drawing.detections@.len() == 0
            && drawing.tracks@.len() == 0,
{
}

} // verus!
