//! The shapes of a detection set.
//!
//! Each record of a detection set that has a location is drawn on its
//! own, as the shape that its location resolves to. A record without a
//! location is not drawn.

use crate::geometry::{resolve, shape_of};
use crate::model::{effective_origin, origin_of, DetectionRecord, Position3d};
use crate::order::{increasing, increasing_lists_agree};
use crate::scalar::Scalar;
use crate::timestamp::{
    first_unrepresentable, representable, texts_match, timestamp_texts, TimeConversionError,
};
use crate::tracking::{event_indices, Event};
use vstd::prelude::*;

verus! {

/// Whether `event` draws one of `records`: the record has a location, and
/// the shape is that of the location, seen from the record's own sensor
/// position where it has one and from `origin` where it has none.
pub open spec fn is_sighting(
    records: Seq<DetectionRecord>,
    origin: Position3d,
    range: Scalar,
    event: Event,
) -> bool {
    &&& event.index < records.len()
    &&& records[event.index as int].location matches Some(location)
    &&& event.shape == shape_of(
        location,
        effective_origin(records[event.index as int].cuas_location, origin),
        range,
    )
}

/// Whether `events` draw the located records among the first `upto`, in
/// the order of the records, each once.
pub open spec fn sightings_upto(
    records: Seq<DetectionRecord>,
    origin: Position3d,
    range: Scalar,
    events: Seq<Event>,
    upto: int,
) -> bool {
    &&& forall|k: int|
        0 <= k < events.len() ==> is_sighting(records, origin, range, #[trigger] events[k])
            && events[k].index < upto
    &&& forall|k: int, l: int|
        0 <= k < l < events.len() ==> (#[trigger] events[k]).index < (#[trigger] events[l]).index
    &&& forall|index: int|
        0 <= index < upto && (#[trigger] records[index]).location.is_some() ==> exists|k: int|
            0 <= k < events.len() && (#[trigger] events[k]).index == index
}

/// The sightings with the sighting of record `at` behind them are the
/// sightings of one record more.
proof fn sightings_take_sighting(
    records: Seq<DetectionRecord>,
    origin: Position3d,
    range: Scalar,
    events: Seq<Event>,
    event: Event,
    at: int,
)
    requires
        sightings_upto(records, origin, range, events, at),
        is_sighting(records, origin, range, event),
        event.index == at,
    ensures
        sightings_upto(records, origin, range, events.push(event), at + 1),
{
    let grown = events.push(event);
    assert forall|k: int| 0 <= k < grown.len() implies is_sighting(
        records,
        origin,
        range,
        #[trigger] grown[k],
    ) && grown[k].index < at + 1 by {
        if k < events.len() {
            assert(grown[k] == events[k]);
        }
    }
    assert forall|k: int, l: int| 0 <= k < l < grown.len() implies (#[trigger] grown[k]).index < (
    #[trigger] grown[l]).index by {
        assert(grown[k] == events[k]);
        if l < events.len() {
            assert(grown[l] == events[l]);
        }
    }
    assert forall|index: int|
        0 <= index < at + 1 && (#[trigger] records[index]).location.is_some() implies exists|
        k: int,
    |
        0 <= k < grown.len() && (#[trigger] grown[k]).index == index by {
        if index < at {
            let k = choose|k: int| 0 <= k < events.len() && (#[trigger] events[k]).index == index;
            assert(grown[k] == events[k]);
        } else {
            assert(grown[events.len() as int].index == index);
        }
    }
}

/// Resolves every located record of a detection set to its shape.
pub fn detection_shapes(
    records: &Vec<DetectionRecord>,
    static_cuas_origin: Position3d,
    cuas_range: Scalar,
) -> (events: Vec<Event>)
    ensures
        sightings_upto(records@, static_cuas_origin, cuas_range, events@, records@.len() as int),
        events@.len() <= records@.len(),
{
    let mut events: Vec<Event> = Vec::new();
    let mut i: usize = 0;
    while i < records.len()
        invariant
            i <= records@.len(),
            events@.len() <= i,
            sightings_upto(records@, static_cuas_origin, cuas_range, events@, i as int),
        decreases records@.len() - i,
    {
        match records[i].location {
            Some(location) => {
                let origin = origin_of(records[i].cuas_location, static_cuas_origin);
                let event = Event { index: i, shape: resolve(location, origin, cuas_range) };
                proof {
                    sightings_take_sighting(
                        records@,
                        static_cuas_origin,
                        cuas_range,
                        events@,
                        event,
                        i as int,
                    );
                }
                events.push(event);
            },
            None => {},
        }
        i = i + 1;
    }
    events
}

/// A detection set ready to be drawn: the shapes of its located records,
/// and for each shape the time of its record as text.
#[derive(Clone, Debug)]
pub struct DetectionDrawing {
    pub events: Vec<Event>,
    pub times: Vec<String>,
}

/// The times of the records that the events draw, in milliseconds since
/// the Unix epoch.
pub open spec fn event_times(records: Seq<DetectionRecord>, events: Seq<Event>) -> Seq<u64> {
    Seq::new(events.len(), |k: int| records[events[k].index as int].time)
}

/// Whether record `index` has a location and a time that cannot be
/// written as a date.
pub open spec fn is_bad_sighting(records: Seq<DetectionRecord>, index: int) -> bool {
    &&& 0 <= index < records.len()
    &&& records[index].location.is_some()
    &&& !representable(records[index].time)
}

/// Whether `index` is the first located record whose time cannot be
/// written as a date.
pub open spec fn first_bad_sighting(records: Seq<DetectionRecord>, index: int) -> bool {
    &&& is_bad_sighting(records, index)
    &&& forall|i: int| 0 <= i < index ==> !#[trigger] is_bad_sighting(records, i)
}

/// Whether every located record of a detection set has a time that can
/// be written as a date.
pub open spec fn detection_is_drawable(records: Seq<DetectionRecord>) -> bool {
    forall|i: int| !#[trigger] is_bad_sighting(records, i)
}

/// Whether `drawing` is the drawing of a detection set: it holds the
/// shapes of the located records, and for each shape the text of its
/// record's time.
pub open spec fn is_detection_drawing(
    records: Seq<DetectionRecord>,
    origin: Position3d,
    range: Scalar,
    drawing: DetectionDrawing,
) -> bool {
    &&& sightings_upto(records, origin, range, drawing.events@, records.len() as int)
    &&& drawing.times@.len() == drawing.events@.len()
    &&& texts_match(
        event_times(records, drawing.events@),
        drawing.times@,
        drawing.events@.len() as int,
    )
}

/// Resolves the located records of a detection set and writes the time of
/// each of them.
///
/// The drawing exists when every located record has a time that can be
/// written as a date; the time of a record without a location is not
/// looked at. Otherwise nothing is drawn, and the error names the time of
/// the first located record that has none.
pub fn draw_detection(
    records: &Vec<DetectionRecord>,
    static_cuas_origin: Position3d,
    cuas_range: Scalar,
) -> (outcome: Result<DetectionDrawing, TimeConversionError>)
    ensures
        outcome.is_ok() <==> detection_is_drawable(records@),
        outcome matches Ok(drawing) ==> is_detection_drawing(
            records@,
            static_cuas_origin,
            cuas_range,
            drawing,
        ),
        outcome matches Err(e) ==> exists|index: int| #[trigger]
            first_bad_sighting(records@, index) && e.millis == records@[index].time,
{
    let events = detection_shapes(records, static_cuas_origin, cuas_range);
    let mut times: Vec<u64> = Vec::new();
    let mut k: usize = 0;
    while k < events.len()
        invariant
            k <= events@.len(),
            times@.len() == k,
            sightings_upto(
                records@,
                static_cuas_origin,
                cuas_range,
                events@,
                records@.len() as int,
            ),
            forall|j: int|
                0 <= j < k ==> #[trigger] times@[j] == records@[events@[j].index as int].time,
        decreases events@.len() - k,
    {
        assert(is_sighting(records@, static_cuas_origin, cuas_range, events@[k as int]));
        times.push(records[events[k].index].time);
        k = k + 1;
    }
    assert(times@ =~= event_times(records@, events@));
    match timestamp_texts(&times) {
        Ok(texts) => {
            assert forall|i: int| !#[trigger] is_bad_sighting(records@, i) by {
                if 0 <= i < records@.len() && records@[i].location.is_some() {
                    let m = choose|m: int|
                        0 <= m < events@.len() && (#[trigger] events@[m]).index == i;
                    assert(representable(times@[m]));
                }
            }
            Ok(DetectionDrawing { events, times: texts })
        },
        Err(e) => {
            proof {
                let bad = choose|bad: int| #[trigger]
                    first_unrepresentable(times@, bad) && e.millis == times@[bad];
                let index = events@[bad].index as int;
                assert(is_sighting(records@, static_cuas_origin, cuas_range, events@[bad]));
                assert(is_bad_sighting(records@, index));
                assert forall|i: int| 0 <= i < index implies !#[trigger] is_bad_sighting(
                    records@,
                    i,
                ) by {
                    if records@[i].location.is_some() {
                        let m = choose|m: int|
                            0 <= m < events@.len() && (#[trigger] events@[m]).index == i;
                        if m > bad {
                            assert(events@[bad].index < events@[m].index);
                        }
                        assert(m < bad);
                        assert(representable(times@[m]));
                    }
                }
                assert(first_bad_sighting(records@, index));
            }
            Err(e)
        },
    }
}

/// A detection set in which no record has a location draws nothing, and
/// one in which every record has a location draws each of them.
pub proof fn sightings_follow_locations(
    records: Seq<DetectionRecord>,
    origin: Position3d,
    range: Scalar,
    events: Seq<Event>,
)
    requires
        sightings_upto(records, origin, range, events, records.len() as int),
    ensures
        events.len() > 0 <==> exists|i: int|
            0 <= i < records.len() && (#[trigger] records[i]).location.is_some(),
{
    if events.len() > 0 {
        assert(is_sighting(records, origin, range, events[0]));
        assert(records[events[0].index as int].location.is_some());
    }
}

/// Every sighting of one list of a detection set's sightings is in any
/// other.
proof fn sighting_is_shared(
    records: Seq<DetectionRecord>,
    origin: Position3d,
    range: Scalar,
    a: Seq<Event>,
    b: Seq<Event>,
    k: int,
)
    requires
        sightings_upto(records, origin, range, a, records.len() as int),
        sightings_upto(records, origin, range, b, records.len() as int),
        0 <= k < a.len(),
    ensures
        event_indices(b).contains(event_indices(a)[k]),
{
    let x = a[k].index as int;
    assert(is_sighting(records, origin, range, a[k]));
    assert(records[x].location.is_some());
    let m = choose|m: int| 0 <= m < b.len() && (#[trigger] b[m]).index == x;
    assert(event_indices(b)[m] == x);
}

/// A detection set has one list of sightings: two lists that both hold
/// the shapes of its located records are the same list.
pub proof fn sightings_are_determined(
    records: Seq<DetectionRecord>,
    origin: Position3d,
    range: Scalar,
    a: Seq<Event>,
    b: Seq<Event>,
)
    requires
        sightings_upto(records, origin, range, a, records.len() as int),
        sightings_upto(records, origin, range, b, records.len() as int),
    ensures
        a == b,
{
    let ia = event_indices(a);
    let ib = event_indices(b);
    assert(increasing(ia)) by {
        assert forall|i: int, j: int| 0 <= i < j < ia.len() implies ia[i] < ia[j] by {
            assert(a[i].index < a[j].index);
        }
    }
    assert(increasing(ib)) by {
        assert forall|i: int, j: int| 0 <= i < j < ib.len() implies ib[i] < ib[j] by {
            assert(b[i].index < b[j].index);
        }
    }
    assert forall|i: int| 0 <= i < ia.len() implies ib.contains(#[trigger] ia[i]) by {
        sighting_is_shared(records, origin, range, a, b, i);
    }
    assert forall|i: int| 0 <= i < ib.len() implies ia.contains(#[trigger] ib[i]) by {
        sighting_is_shared(records, origin, range, b, a, i);
    }
    if a.len() < b.len() {
        increasing_lists_agree(ib, ia, a.len() as int);
    }
    if b.len() < a.len() {
        increasing_lists_agree(ia, ib, b.len() as int);
    }
    assert forall|k: int| 0 <= k < a.len() implies a[k] == b[k] by {
        increasing_lists_agree(ia, ib, k);
        assert(is_sighting(records, origin, range, a[k]));
        assert(is_sighting(records, origin, range, b[k]));
    }
    assert(a =~= b);
}

} // verus!
