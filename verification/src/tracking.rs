//! Splitting the records of a track into trajectories and single events.
//!
//! A record with an absolute position is a point of a trajectory. Records
//! of that kind that follow one another without a gap form one run, and
//! each run is drawn as one trajectory. Every other record is an event of
//! its own, drawn as the point, ray or sector that its location resolves
//! to.

use crate::geometry::{resolve, shape_of, AltitudeMode, Shape};
use crate::model::{effective_origin, origin_of, Location, Position3d, TrackingRecord};
use crate::order::{increasing, increasing_lists_agree};
use crate::scalar::Scalar;
use crate::timestamp::{
    first_unrepresentable, representable, texts_match, timestamp_texts, TimeConversionError,
};
use vstd::prelude::*;

verus! {

/// A record that is drawn on its own: its place in the track and its
/// shape.
#[derive(Clone, Copy, Debug, PartialEq, Eq, Structural)]
pub struct Event {
    pub index: usize,
    pub shape: Shape,
}

/// A run of records with absolute positions: `points[j]` is the point of
/// record `start + j`.
#[derive(Clone, Debug)]
pub struct Run {
    pub start: usize,
    pub mode: AltitudeMode,
    pub points: Vec<Position3d>,
}

/// The events and the runs of one track.
#[derive(Clone, Debug)]
pub struct Segmentation {
    pub events: Vec<Event>,
    pub runs: Vec<Run>,
}

impl Run {
    /// The index just behind the last record of the run.
    pub open spec fn end(self) -> int {
        self.start + self.points@.len()
    }

    /// Whether record `index` belongs to the run.
    pub open spec fn holds(self, index: int) -> bool {
        self.start <= index < self.end()
    }

    /// The number of records in the run.
    pub fn len(&self) -> (n: usize)
        ensures
            n == self.points@.len(),
    {
        self.points.len()
    }
}

/// The altitude mode of a run that begins with this location: absolute
/// where it has a height, on the ground where it has none.
pub open spec fn mode_of_first(first: Location) -> AltitudeMode {
    if first is Position3d {
        AltitudeMode::Absolute
    } else {
        AltitudeMode::ClampToGround
    }
}

/// Whether record `index` is a point of a trajectory.
pub open spec fn on_trajectory(records: Seq<TrackingRecord>, index: int) -> bool {
    0 <= index < records.len() && records[index].location.is_position()
}

/// Whether `run` is one of the runs of `records`: it is not empty, all its
/// records are points of a trajectory, it cannot be made longer at either
/// end, its mode is that of its first record, and its points are those of
/// its records, with height 0 where a record has no height.
pub open spec fn is_run(records: Seq<TrackingRecord>, run: Run) -> bool {
    &&& run.points@.len() >= 1
    &&& run.end() <= records.len()
    &&& forall|j: int|
        0 <= j < run.points@.len() ==> Some(#[trigger] run.points@[j]) == records[run.start
            + j].location.trajectory_point()
    &&& run.mode == mode_of_first(records[run.start as int].location)
    &&& !on_trajectory(records, run.start - 1)
    &&& !on_trajectory(records, run.end())
}

/// Whether `event` is one of the events of `records`: its record is no
/// point of a trajectory, and its shape is that of the record's location,
/// seen from the record's own sensor position where it has one and from
/// `origin` where it has none.
pub open spec fn is_event(
    records: Seq<TrackingRecord>,
    origin: Position3d,
    range: Scalar,
    event: Event,
) -> bool {
    &&& event.index < records.len()
    &&& !records[event.index as int].location.is_position()
    &&& event.shape == shape_of(
        records[event.index as int].location,
        effective_origin(records[event.index as int].cuas_location, origin),
        range,
    )
}

/// Whether `events` are the events of the first `upto` records, in the
/// order of the records, each once.
pub open spec fn events_upto(
    records: Seq<TrackingRecord>,
    origin: Position3d,
    range: Scalar,
    events: Seq<Event>,
    upto: int,
) -> bool {
    &&& forall|k: int|
        0 <= k < events.len() ==> is_event(records, origin, range, #[trigger] events[k])
            && events[k].index < upto
    &&& forall|k: int, l: int|
        0 <= k < l < events.len() ==> (#[trigger] events[k]).index < (#[trigger] events[l]).index
    &&& forall|index: int|
        0 <= index < upto && !(#[trigger] records[index]).location.is_position() ==> exists|k: int|
            0 <= k < events.len() && (#[trigger] events[k]).index == index
}

/// Whether `runs` are the runs among the first `upto` records, in the
/// order of the records, each once.
pub open spec fn runs_upto(records: Seq<TrackingRecord>, runs: Seq<Run>, upto: int) -> bool {
    &&& forall|k: int|
        0 <= k < runs.len() ==> is_run(records, #[trigger] runs[k]) && runs[k].end() <= upto
    &&& forall|k: int, l: int|
        0 <= k < l < runs.len() ==> (#[trigger] runs[k]).end() < (#[trigger] runs[l]).start
    &&& forall|index: int|
        0 <= index < upto && (#[trigger] records[index]).location.is_position() ==> exists|k: int|
            0 <= k < runs.len() && (#[trigger] runs[k]).holds(index)
}

/// Whether `result` is the segmentation of `records`.
pub open spec fn segments(
    records: Seq<TrackingRecord>,
    origin: Position3d,
    range: Scalar,
    result: Segmentation,
) -> bool {
    &&& events_upto(records, origin, range, result.events@, records.len() as int)
    &&& runs_upto(records, result.runs@, records.len() as int)
}

/// The events stay the events when the records that follow are points of
/// a trajectory.
proof fn events_pass_points(
    records: Seq<TrackingRecord>,
    origin: Position3d,
    range: Scalar,
    events: Seq<Event>,
    from: int,
    to: int,
)
    requires
        events_upto(records, origin, range, events, from),
        from <= to,
        forall|index: int|
            from <= index < to ==> (#[trigger] records[index]).location.is_position(),
    ensures
        events_upto(records, origin, range, events, to),
{
}

/// The events with the event of record `at` behind them are the events
/// of one record more.
proof fn events_take_event(
    records: Seq<TrackingRecord>,
    origin: Position3d,
    range: Scalar,
    events: Seq<Event>,
    event: Event,
    at: int,
)
    requires
        events_upto(records, origin, range, events, at),
        is_event(records, origin, range, event),
        event.index == at,
    ensures
        events_upto(records, origin, range, events.push(event), at + 1),
{
    let grown = events.push(event);
    assert forall|k: int| 0 <= k < grown.len() implies is_event(
        records,
        origin,
        range,
        #[trigger] grown[k],
    ) && grown[k].index < at + 1 by {
        if k < events.len() {
            assert(grown[k] == events[k]);
        }
    }
    assert forall|k: int, l: int| 0 <= k < l < grown.len() implies (#[trigger] grown[k]).index < (
    #[trigger] grown[l]).index by {
        assert(grown[k] == events[k]);
        if l < events.len() {
            assert(grown[l] == events[l]);
        }
    }
    assert forall|index: int|
        0 <= index < at + 1 && !(#[trigger] records[index]).location.is_position() implies exists|
        k: int,
    |
        0 <= k < grown.len() && (#[trigger] grown[k]).index == index by {
        if index < at {
            let k = choose|k: int| 0 <= k < events.len() && (#[trigger] events[k]).index == index;
            assert(grown[k] == events[k]);
        } else {
            assert(grown[events.len() as int].index == index);
        }
    }
}

/// The runs stay the runs when the record that follows is an event.
proof fn runs_pass_event(records: Seq<TrackingRecord>, runs: Seq<Run>, at: int)
    requires
        runs_upto(records, runs, at),
        0 <= at < records.len(),
        !records[at].location.is_position(),
    ensures
        runs_upto(records, runs, at + 1),
{
}

/// The runs with the run that begins at record `at` behind them are the
/// runs up to the end of that run.
proof fn runs_take_run(records: Seq<TrackingRecord>, runs: Seq<Run>, run: Run, at: int)
    requires
        runs_upto(records, runs, at),
        is_run(records, run),
        run.start == at,
    ensures
        runs_upto(records, runs.push(run), run.end()),
{
    let grown = runs.push(run);
    assert forall|k: int| 0 <= k < grown.len() implies is_run(records, #[trigger] grown[k])
        && grown[k].end() <= run.end() by {
        if k < runs.len() {
            assert(grown[k] == runs[k]);
        }
    }
    assert forall|k: int, l: int| 0 <= k < l < grown.len() implies (#[trigger] grown[k]).end() < (
    #[trigger] grown[l]).start by {
        assert(grown[k] == runs[k]);
        if l < runs.len() {
            assert(grown[l] == runs[l]);
        } else {
            run_begins_with_point(records, run);
        }
    }
    assert forall|index: int|
        0 <= index < run.end() && (#[trigger] records[index]).location.is_position() implies exists|
        k: int,
    |
        0 <= k < grown.len() && (#[trigger] grown[k]).holds(index) by {
        if index < at {
            let k = choose|k: int| 0 <= k < runs.len() && (#[trigger] runs[k]).holds(index);
            assert(grown[k] == runs[k]);
        } else {
            assert(grown[runs.len() as int].holds(index));
        }
    }
}

/// Every record of a run is a point of a trajectory.
proof fn run_holds_points(records: Seq<TrackingRecord>, run: Run)
    requires
        is_run(records, run),
    ensures
        forall|index: int|
            run.start <= index < run.end() ==> (#[trigger] records[index]).location.is_position(),
{
    assert forall|index: int| run.start <= index < run.end() implies (
    #[trigger] records[index]).location.is_position() by {
        let j = index - run.start;
        assert(Some(run.points@[j]) == records[run.start + j].location.trajectory_point());
    }
}

/// Splits the records of a track into events and runs.
///
/// Every record that has no absolute position becomes an event, with the
/// shape of its location. The records that have one fall into runs: the
/// longest stretches of such records that follow one another. The altitude
/// mode of a run is decided by its first record alone; a later record of
/// another kind keeps that mode, and a record without a height is put at
/// height 0.
pub fn segment(
    records: &Vec<TrackingRecord>,
    static_cuas_origin: Position3d,
    cuas_range: Scalar,
) -> (result: Segmentation)
    ensures
        segments(records@, static_cuas_origin, cuas_range, result),
        records@.len() == 0 ==> result.events@.len() == 0 && result.runs@.len() == 0,
{
    let n = records.len();
    let mut events: Vec<Event> = Vec::new();
    let mut runs: Vec<Run> = Vec::new();
    let mut i: usize = 0;
    while i < n
        invariant
            n == records@.len(),
            i <= n,
            events_upto(records@, static_cuas_origin, cuas_range, events@, i as int),
            runs_upto(records@, runs@, i as int),
            !on_trajectory(records@, i as int) || !on_trajectory(records@, i - 1),
            n == 0 ==> events@.len() == 0 && runs@.len() == 0,
        decreases n - i,
    {
        let location = records[i].location;
        match location.position() {
            Some(first) => {
                let start = i;
                let mode = match location {
                    Location::Position3d(_) => AltitudeMode::Absolute,
                    _ => AltitudeMode::ClampToGround,
                };
                let mut points: Vec<Position3d> = Vec::new();
                points.push(first);
                i = i + 1;
                while i < n && records[i].location.is_absolute_position()
                    invariant
                        n == records@.len(),
                        start < i <= n,
                        points@.len() == i - start,
                        forall|j: int|
                            0 <= j < points@.len() ==> Some(#[trigger] points@[j]) == records@[start
                                + j].location.trajectory_point(),
                    decreases n - i,
                {
                    match records[i].location.position() {
                        Some(next) => {
                            points.push(next);
                        },
                        None => {},
                    }
                    i = i + 1;
                }
                let run = Run { start, mode, points };
                proof {
                    run_holds_points(records@, run);
                    events_pass_points(
                        records@,
                        static_cuas_origin,
                        cuas_range,
                        events@,
                        start as int,
                        i as int,
                    );
                    runs_take_run(records@, runs@, run, start as int);
                }
                runs.push(run);
            },
            None => {
                let origin = origin_of(records[i].cuas_location, static_cuas_origin);
                let event = Event { index: i, shape: resolve(location, origin, cuas_range) };
                proof {
                    events_take_event(
                        records@,
                        static_cuas_origin,
                        cuas_range,
                        events@,
                        event,
                        i as int,
                    );
                    runs_pass_event(records@, runs@, i as int);
                }
                events.push(event);
                i = i + 1;
            },
        }
    }
    Segmentation { events, runs }
}

/// A run begins with a point of a trajectory and is not empty.
proof fn run_begins_with_point(records: Seq<TrackingRecord>, run: Run)
    requires
        is_run(records, run),
    ensures
        on_trajectory(records, run.start as int),
        run.start < run.end() <= records.len(),
{
    assert(Some(run.points@[0]) == records[run.start + 0].location.trajectory_point());
}

/// A track ready to be drawn: its events, its runs, and the time of each
/// of its records as text.
#[derive(Clone, Debug)]
pub struct TrackDrawing {
    pub segmentation: Segmentation,
    pub times: Vec<String>,
}

/// The times of the records of a track, in milliseconds since the Unix
/// epoch.
pub open spec fn record_times(records: Seq<TrackingRecord>) -> Seq<u64> {
    Seq::new(records.len(), |i: int| records[i].time)
}

/// Whether `index` is the first record whose time cannot be written as a
/// date.
pub open spec fn first_bad_time(records: Seq<TrackingRecord>, index: int) -> bool {
    &&& 0 <= index < records.len()
    &&& !representable(records[index].time)
    &&& forall|i: int| 0 <= i < index ==> representable((#[trigger] records[i]).time)
}

/// Whether every record of a track has a time that can be written as a
/// date.
pub open spec fn track_is_drawable(records: Seq<TrackingRecord>) -> bool {
    forall|i: int| 0 <= i < records.len() ==> representable((#[trigger] records[i]).time)
}

/// Whether `drawing` is the drawing of a track: it holds the track's
/// segmentation, and for each record the text of its time.
pub open spec fn is_track_drawing(
    records: Seq<TrackingRecord>,
    origin: Position3d,
    range: Scalar,
    drawing: TrackDrawing,
) -> bool {
    &&& segments(records, origin, range, drawing.segmentation)
    &&& drawing.times@.len() == records.len()
    &&& texts_match(record_times(records), drawing.times@, records.len() as int)
}

/// Segments a track and writes the time of each of its records.
///
/// The drawing exists when every record has a time that can be written as
/// a date. Otherwise nothing is drawn, and the error names the time of the
/// first record that has none.
pub fn draw_track(
    records: &Vec<TrackingRecord>,
    static_cuas_origin: Position3d,
    cuas_range: Scalar,
) -> (outcome: Result<TrackDrawing, TimeConversionError>)
    ensures
        outcome.is_ok() <==> track_is_drawable(records@),
        outcome matches Ok(drawing) ==> is_track_drawing(
            records@,
            static_cuas_origin,
            cuas_range,
            drawing,
        ),
        outcome matches Err(e) ==> exists|index: int| #[trigger]
            first_bad_time(records@, index) && e.millis == records@[index].time,
{
    let mut times: Vec<u64> = Vec::new();
    let mut i: usize = 0;
    while i < records.len()
        invariant
            i <= records@.len(),
            times@.len() == i,
            forall|j: int| 0 <= j < i ==> #[trigger] times@[j] == records@[j].time,
        decreases records@.len() - i,
    {
        times.push(records[i].time);
        i = i + 1;
    }
    assert(times@ =~= record_times(records@));
    match timestamp_texts(&times) {
        Ok(texts) => {
            assert forall|j: int| 0 <= j < records@.len() implies representable(
                (#[trigger] records@[j]).time,
            ) by {
                assert(representable(times@[j]));
            }
            let segmentation = segment(records, static_cuas_origin, cuas_range);
            Ok(TrackDrawing { segmentation, times: texts })
        },
        Err(e) => {
            proof {
                let index = choose|index: int| #[trigger]
                    first_unrepresentable(times@, index) && e.millis == times@[index];
                assert forall|j: int| 0 <= j < index implies representable(
                    (#[trigger] records@[j]).time,
                ) by {
                    assert(representable(times@[j]));
                }
                assert(first_bad_time(records@, index));
                assert(!representable(records@[index].time));
            }
            Err(e)
        },
    }
}

/// A track without records has no events and no runs.
pub proof fn empty_track_has_no_geometry(
    records: Seq<TrackingRecord>,
    origin: Position3d,
    range: Scalar,
    result: Segmentation,
)
    requires
        records.len() == 0,
        segments(records, origin, range, result),
    ensures
        result.events@.len() == 0,
        result.runs@.len() == 0,
{
    if result.events@.len() > 0 {
        assert(is_event(records, origin, range, result.events@[0]));
    }
    if result.runs@.len() > 0 {
        assert(is_run(records, result.runs@[0]));
    }
}

/// The first record of a run decides its altitude mode, whatever follows.
/// Each point of the run is the position of its record; where the record
/// has no height the point lies at height 0, also in a run whose mode is
/// absolute.
pub proof fn first_record_decides_mode(records: Seq<TrackingRecord>, run: Run, j: int)
    requires
        is_run(records, run),
        0 <= j < run.points@.len(),
    ensures
        records[run.start as int].location is Position3d ==> run.mode == AltitudeMode::Absolute,
        records[run.start as int].location is Position2d ==> run.mode
            == AltitudeMode::ClampToGround,
        records[run.start + j].location matches Location::Position3d(p) ==> run.points@[j] == p,
        records[run.start + j].location matches Location::Position2d(p) ==> run.points@[j]
            == p.grounded() && run.points@[j].height == Scalar::zero(),
        records[run.start + j].location.is_position(),
{
    assert(Some(run.points@[j]) == records[run.start + j].location.trajectory_point());
    assert(Some(run.points@[0]) == records[run.start + 0].location.trajectory_point());
}

/// A track has a run exactly when one of its records has an absolute
/// position, and an event exactly when one of them has none.
pub proof fn geometry_follows_records(
    records: Seq<TrackingRecord>,
    origin: Position3d,
    range: Scalar,
    result: Segmentation,
)
    requires
        segments(records, origin, range, result),
    ensures
        result.runs@.len() > 0 <==> exists|i: int| on_trajectory(records, i),
        result.events@.len() > 0 <==> exists|i: int|
            0 <= i < records.len() && !(#[trigger] records[i]).location.is_position(),
{
    if result.runs@.len() > 0 {
        let run = result.runs@[0];
        assert(is_run(records, run));
        assert(Some(run.points@[0]) == records[run.start + 0].location.trajectory_point());
        assert(on_trajectory(records, run.start as int));
    }
    if exists|i: int| on_trajectory(records, i) {
        let i = choose|i: int| on_trajectory(records, i);
        assert(records[i].location.is_position());
    }
    if result.events@.len() > 0 {
        let event = result.events@[0];
        assert(is_event(records, origin, range, event));
        assert(!records[event.index as int].location.is_position());
    }
}

/// The runs of a track do not overlap and do not touch: between two of
/// them lies a record that is an event.
pub proof fn runs_are_apart(records: Seq<TrackingRecord>, runs: Seq<Run>, k: int, l: int)
    requires
        runs_upto(records, runs, records.len() as int),
        0 <= k < l < runs.len(),
    ensures
        runs[k].end() < runs[l].start,
        !records[runs[k].end()].location.is_position(),
{
    assert(is_run(records, runs[k]));
    assert(is_run(records, runs[l]));
}

/// The places in the track of the records that a list of events draws.
pub open spec fn event_indices(events: Seq<Event>) -> Seq<int> {
    Seq::new(events.len(), |k: int| events[k].index as int)
}

/// The places in the track at which the runs of a list begin.
pub open spec fn run_starts(runs: Seq<Run>) -> Seq<int> {
    Seq::new(runs.len(), |k: int| runs[k].start as int)
}

/// Every event of one list of a track's events is in any other.
proof fn event_is_shared(
    records: Seq<TrackingRecord>,
    origin: Position3d,
    range: Scalar,
    a: Seq<Event>,
    b: Seq<Event>,
    k: int,
)
    requires
        events_upto(records, origin, range, a, records.len() as int),
        events_upto(records, origin, range, b, records.len() as int),
        0 <= k < a.len(),
    ensures
        event_indices(b).contains(event_indices(a)[k]),
{
    let x = a[k].index as int;
    assert(is_event(records, origin, range, a[k]));
    assert(!records[x].location.is_position());
    let m = choose|m: int| 0 <= m < b.len() && (#[trigger] b[m]).index == x;
    assert(event_indices(b)[m] == x);
}

/// A track has one list of events: two lists that both hold its events
/// are the same list.
pub proof fn events_are_determined(
    records: Seq<TrackingRecord>,
    origin: Position3d,
    range: Scalar,
    a: Seq<Event>,
    b: Seq<Event>,
)
    requires
        events_upto(records, origin, range, a, records.len() as int),
        events_upto(records, origin, range, b, records.len() as int),
    ensures
        a == b,
{
    let ia = event_indices(a);
    let ib = event_indices(b);
    assert(increasing(ia)) by {
        assert forall|i: int, j: int| 0 <= i < j < ia.len() implies ia[i] < ia[j] by {
            assert(a[i].index < a[j].index);
        }
    }
    assert(increasing(ib)) by {
        assert forall|i: int, j: int| 0 <= i < j < ib.len() implies ib[i] < ib[j] by {
            assert(b[i].index < b[j].index);
        }
    }
    assert forall|i: int| 0 <= i < ia.len() implies ib.contains(#[trigger] ia[i]) by {
        event_is_shared(records, origin, range, a, b, i);
    }
    assert forall|i: int| 0 <= i < ib.len() implies ia.contains(#[trigger] ib[i]) by {
        event_is_shared(records, origin, range, b, a, i);
    }
    if a.len() < b.len() {
        increasing_lists_agree(ib, ia, a.len() as int);
    }
    if b.len() < a.len() {
        increasing_lists_agree(ia, ib, b.len() as int);
    }
    assert forall|k: int| 0 <= k < a.len() implies a[k] == b[k] by {
        increasing_lists_agree(ia, ib, k);
        assert(is_event(records, origin, range, a[k]));
        assert(is_event(records, origin, range, b[k]));
    }
    assert(a =~= b);
}

/// A run that holds a record begins at that record if no point of a
/// trajectory stands before it.
proof fn run_begins_at(records: Seq<TrackingRecord>, run: Run, x: int)
    requires
        is_run(records, run),
        run.holds(x),
        !on_trajectory(records, x - 1),
    ensures
        run.start == x,
{
    if run.start < x {
        let j = x - 1 - run.start;
        assert(Some(run.points@[j]) == records[run.start + j].location.trajectory_point());
    }
}

/// Every run of one list of a track's runs begins where a run of any
/// other begins.
proof fn run_start_is_shared(records: Seq<TrackingRecord>, a: Seq<Run>, b: Seq<Run>, k: int)
    requires
        runs_upto(records, a, records.len() as int),
        runs_upto(records, b, records.len() as int),
        0 <= k < a.len(),
    ensures
        run_starts(b).contains(run_starts(a)[k]),
{
    let x = a[k].start as int;
    assert(is_run(records, a[k]));
    run_begins_with_point(records, a[k]);
    assert(records[x].location.is_position());
    let m = choose|m: int| 0 <= m < b.len() && (#[trigger] b[m]).holds(x);
    assert(is_run(records, b[m]));
    run_begins_at(records, b[m], x);
    assert(run_starts(b)[m] == x);
}

/// The runs of a list begin later and later.
proof fn run_starts_increase(records: Seq<TrackingRecord>, runs: Seq<Run>)
    requires
        runs_upto(records, runs, records.len() as int),
    ensures
        increasing(run_starts(runs)),
{
    let starts = run_starts(runs);
    assert forall|i: int, j: int| 0 <= i < j < starts.len() implies starts[i] < starts[j] by {
        assert(is_run(records, runs[i]));
        assert(runs[i].end() < runs[j].start);
    }
}

/// Of two runs of one track that begin with the same record, neither
/// ends before the other.
proof fn run_end_agrees(records: Seq<TrackingRecord>, p: Run, q: Run)
    requires
        is_run(records, p),
        is_run(records, q),
        p.start == q.start,
    ensures
        p.end() <= q.end(),
{
    if q.end() < p.end() {
        let j = q.end() - p.start;
        assert(Some(p.points@[j]) == records[p.start + j].location.trajectory_point());
    }
}

/// A track has one list of runs: two lists that both hold its runs have
/// the same length, and at each place their runs begin with the same
/// record, have the same mode and hold the same points.
pub proof fn runs_are_determined(records: Seq<TrackingRecord>, a: Seq<Run>, b: Seq<Run>)
    requires
        runs_upto(records, a, records.len() as int),
        runs_upto(records, b, records.len() as int),
    ensures
        a.len() == b.len(),
        forall|k: int|
            0 <= k < a.len() ==> (#[trigger] a[k]).start == b[k].start && a[k].mode == b[k].mode
                && a[k].points@ == b[k].points@,
{
    let sa = run_starts(a);
    let sb = run_starts(b);
    run_starts_increase(records, a);
    run_starts_increase(records, b);
    assert forall|i: int| 0 <= i < sa.len() implies sb.contains(#[trigger] sa[i]) by {
        run_start_is_shared(records, a, b, i);
    }
    assert forall|i: int| 0 <= i < sb.len() implies sa.contains(#[trigger] sb[i]) by {
        run_start_is_shared(records, b, a, i);
    }
    if a.len() < b.len() {
        increasing_lists_agree(sb, sa, a.len() as int);
    }
    if b.len() < a.len() {
        increasing_lists_agree(sa, sb, b.len() as int);
    }
    assert forall|k: int| 0 <= k < a.len() implies (#[trigger] a[k]).start == b[k].start
        && a[k].mode == b[k].mode && a[k].points@ == b[k].points@ by {
        increasing_lists_agree(sa, sb, k);
        assert(sa[k] == a[k].start && sb[k] == b[k].start);
        assert(is_run(records, a[k]));
        assert(is_run(records, b[k]));
        run_end_agrees(records, a[k], b[k]);
        run_end_agrees(records, b[k], a[k]);
        assert forall|j: int| 0 <= j < a[k].points@.len() implies a[k].points@[j]
            == b[k].points@[j] by {
            assert(Some(a[k].points@[j]) == records[a[k].start + j].location.trajectory_point());
            assert(Some(b[k].points@[j]) == records[b[k].start + j].location.trajectory_point());
        }
        assert(a[k].points@ =~= b[k].points@);
    }
}

/// Segmenting is a function of the track, the sensor's position and the
/// range: whatever meets the contract of `segment` on equal inputs holds
/// the same events and the same runs.
pub proof fn segmentation_is_repeatable(
    records: Seq<TrackingRecord>,
    origin: Position3d,
    range: Scalar,
    first: Segmentation,
    second: Segmentation,
)
    requires
        segments(records, origin, range, first),
        segments(records, origin, range, second),
    ensures
        first.events@ == second.events@,
        first.runs@.len() == second.runs@.len(),
        forall|k: int|
            0 <= k < first.runs@.len() ==> {
                &&& (#[trigger] first.runs@[k]).start == second.runs@[k].start
                &&& first.runs@[k].mode == second.runs@[k].mode
                &&& first.runs@[k].points@ == second.runs@[k].points@
            },
{
    events_are_determined(records, origin, range, first.events@, second.events@);
    runs_are_determined(records, first.runs@, second.runs@);
}

} // verus!
