//! From a location to the shape it is drawn as.
//!
//! A location given by polar measurements has to be projected from the
//! sensor's position onto the ellipsoid. That projection is arithmetic on
//! real numbers and is not done here. This module decides everything
//! around it: which shape a location becomes, which projections the shape
//! needs, with which arguments, and how the projected positions are put
//! together into the finished primitive.

use crate::model::{Arc, Location, Position3d, Quad};
use crate::scalar::{
    Scalar, DEG_135_BITS, DEG_225_BITS, DEG_315_BITS, DEG_45_BITS, DEG_MINUS_45_BITS,
    HUNDRED_BITS, ZERO_BITS,
};
use vstd::prelude::*;

verus! {

/// The number of samples along the arc of a sector.
pub const ARC_POINT_COUNT: u64 = 64;

/// How the height of a drawn coordinate is read.
#[derive(Clone, Copy, Debug, PartialEq, Eq, Structural)]
pub enum AltitudeMode {
    /// Heights are metres above mean sea level.
    Absolute,
    /// Heights are ignored and the shape lies on the ground.
    ClampToGround,
}

/// The bearing of a projection, in degrees clockwise from true north.
#[derive(Clone, Copy, Debug, PartialEq, Eq, Structural)]
pub enum Azimuth {
    /// The bearing itself.
    Exact(Scalar),
    /// The bearing `from + (to - from) * (step / 64)`: sample number
    /// `step` of a sweep from `from` towards `to`. The difference is taken
    /// as it stands, so a sweep with `from > to` runs backwards.
    Swept { from: Scalar, to: Scalar, step: u64 },
}

/// A polar offset from an origin that is to be turned into a geodetic
/// position: azimuth and elevation in degrees, slant range in metres.
#[derive(Clone, Copy, Debug, PartialEq, Eq, Structural)]
pub struct Projection {
    pub origin: Position3d,
    pub azimuth: Azimuth,
    pub elevation: Scalar,
    pub distance: Scalar,
}

/// A corner of a shape: a position that is known, or one that a
/// projection will give.
#[derive(Clone, Copy, Debug, PartialEq, Eq, Structural)]
pub enum Vertex {
    Known(Position3d),
    Projected(Projection),
}

/// What a location is drawn as, before any projection has been computed.
#[derive(Clone, Copy, Debug, PartialEq, Eq, Structural)]
pub enum Shape {
    /// A single point.
    Point { at: Vertex, mode: AltitudeMode },
    /// A line from the sensor towards a projected end.
    Ray { from: Position3d, to: Projection, mode: AltitudeMode },
    /// A sector around `origin`, swept from one bearing to another.
    Sector { origin: Position3d, sweep: Arc },
}

/// A finished primitive, with every coordinate known.
#[derive(Clone, Debug)]
pub enum GeometryPrimitive {
    Point { position: Position3d, mode: AltitudeMode },
    Ray { from: Position3d, to: Position3d, mode: AltitudeMode },
    /// The boundary of a sector. The ring is not closed: its last point is
    /// not its first.
    SectorPolygon { ring: Vec<Position3d> },
}

/// The mathematical value of a `GeometryPrimitive`.
pub ghost enum PrimitiveModel {
    Point { position: Position3d, mode: AltitudeMode },
    Ray { from: Position3d, to: Position3d, mode: AltitudeMode },
    SectorPolygon { ring: Seq<Position3d> },
}

impl View for GeometryPrimitive {
    type V = PrimitiveModel;

    open spec fn view(&self) -> PrimitiveModel {
        match *self {
            GeometryPrimitive::Point { position, mode } => PrimitiveModel::Point { position, mode },
            GeometryPrimitive::Ray { from, to, mode } => PrimitiveModel::Ray { from, to, mode },
            GeometryPrimitive::SectorPolygon { ring } => PrimitiveModel::SectorPolygon {
                ring: ring@,
            },
        }
    }
}

/// A coordinate as it is written out: longitude and latitude in degrees,
/// and the height in metres where it is written at all.
#[derive(Clone, Copy, Debug, PartialEq, Eq, Structural)]
pub struct Coordinate {
    pub lon: Scalar,
    pub lat: Scalar,
    pub height: Option<Scalar>,
}

/// A position written with its height.
pub open spec fn with_height(p: Position3d) -> Coordinate {
    Coordinate { lon: p.lon, lat: p.lat, height: Some(p.height) }
}

/// A position written without its height.
pub open spec fn without_height(p: Position3d) -> Coordinate {
    Coordinate { lon: p.lon, lat: p.lat, height: None }
}

/// The name of an altitude mode in the drawing.
pub open spec fn altitude_mode_text(mode: AltitudeMode) -> Seq<char> {
    match mode {
        AltitudeMode::Absolute => "absolute"@,
        AltitudeMode::ClampToGround => "clampToGround"@,
    }
}

/// The name of an altitude mode in the drawing.
pub fn altitude_mode_label(mode: AltitudeMode) -> (label: &'static str)
    ensures
        label@ == altitude_mode_text(mode),
{
    match mode {
        AltitudeMode::Absolute => "absolute",
        AltitudeMode::ClampToGround => "clampToGround",
    }
}

impl PrimitiveModel {
    /// The coordinates of the primitive in the order in which they are
    /// written: a point is one coordinate and a ray is two, each with its
    /// height; a sector is its ring, without heights.
    pub open spec fn coordinates(self) -> Seq<Coordinate> {
        match self {
            PrimitiveModel::Point { position, .. } => seq![with_height(position)],
            PrimitiveModel::Ray { from, to, .. } => seq![with_height(from), with_height(to)],
            PrimitiveModel::SectorPolygon { ring } => Seq::new(
                ring.len(),
                |i: int| without_height(ring[i]),
            ),
        }
    }

    /// The altitude mode under which the primitive is drawn; a sector
    /// always lies on the ground.
    pub open spec fn altitude_mode(self) -> AltitudeMode {
        match self {
            PrimitiveModel::Point { mode, .. } => mode,
            PrimitiveModel::Ray { mode, .. } => mode,
            PrimitiveModel::SectorPolygon { .. } => AltitudeMode::ClampToGround,
        }
    }

    /// Whether the primitive follows the terrain between its corners: true
    /// of sectors only.
    pub open spec fn follows_terrain(self) -> bool {
        self is SectorPolygon
    }
}

impl GeometryPrimitive {
    /// The altitude mode under which the primitive is drawn.
    pub fn altitude_mode(&self) -> (mode: AltitudeMode)
        ensures
            mode == self@.altitude_mode(),
    {
        match self {
            GeometryPrimitive::Point { mode, .. } => *mode,
            GeometryPrimitive::Ray { mode, .. } => *mode,
            GeometryPrimitive::SectorPolygon { .. } => AltitudeMode::ClampToGround,
        }
    }

    /// Whether the primitive follows the terrain between its corners.
    pub fn tessellate(&self) -> (flag: bool)
        ensures
            flag == self@.follows_terrain(),
    {
        match self {
            GeometryPrimitive::SectorPolygon { .. } => true,
            _ => false,
        }
    }

    /// The coordinates of the primitive, as they are written out.
    pub fn coordinates(&self) -> (list: Vec<Coordinate>)
        ensures
            list@ == self@.coordinates(),
    {
        let mut list: Vec<Coordinate> = Vec::new();
        match self {
            GeometryPrimitive::Point { position, .. } => {
                list.push(
                    Coordinate {
                        lon: position.lon,
                        lat: position.lat,
                        height: Some(position.height),
                    },
                );
            },
            GeometryPrimitive::Ray { from, to, .. } => {
                list.push(Coordinate { lon: from.lon, lat: from.lat, height: Some(from.height) });
                list.push(Coordinate { lon: to.lon, lat: to.lat, height: Some(to.height) });
            },
            GeometryPrimitive::SectorPolygon { ring } => {
                let mut i: usize = 0;
                while i < ring.len()
                    invariant
                        i <= ring@.len(),
                        list@.len() == i,
                        forall|j: int|
                            0 <= j < i ==> #[trigger] list@[j] == without_height(ring@[j]),
                    decreases ring@.len() - i,
                {
                    let p = ring[i];
                    list.push(Coordinate { lon: p.lon, lat: p.lat, height: None });
                    i = i + 1;
                }
            },
        }
        assert(list@ =~= self@.coordinates());
        list
    }

    /// No primitive is extruded down to the ground.
    pub fn extrude(&self) -> (flag: bool)
        ensures
            !flag,
    {
        false
    }
}

/// The radius of every sector, in metres. It does not depend on the range
/// of the sensor.
pub open spec fn arc_radius() -> Scalar {
    Scalar { bits: HUNDRED_BITS }
}

/// The polar offset `(azimuth, elevation, distance)` from `origin`.
pub open spec fn offset_from(
    origin: Position3d,
    azimuth: Scalar,
    elevation: Scalar,
    distance: Scalar,
) -> Projection {
    Projection { origin, azimuth: Azimuth::Exact(azimuth), elevation, distance }
}

/// Sample number `step` on the arc of a sector: at elevation 0, at the
/// fixed radius, `step / 64` of the way from `from` to `to`.
pub open spec fn arc_sample(origin: Position3d, from: Scalar, to: Scalar, step: int) -> Projection {
    Projection {
        origin,
        azimuth: Azimuth::Swept { from, to, step: step as u64 },
        elevation: Scalar::zero(),
        distance: arc_radius(),
    }
}

/// The samples on the arc of a sector, from `from` (included) towards
/// `to` (not reached).
pub open spec fn arc_samples(origin: Position3d, from: Scalar, to: Scalar) -> Seq<Projection> {
    Seq::new(ARC_POINT_COUNT as nat, |step: int| arc_sample(origin, from, to, step))
}

/// The boundary of a sector: the origin, then the samples on its arc.
pub open spec fn arc_ring(from: Scalar, to: Scalar, origin: Position3d) -> Seq<Vertex> {
    Seq::new(
        (ARC_POINT_COUNT + 1) as nat,
        |i: int|
            if i == 0 {
                Vertex::Known(origin)
            } else {
                Vertex::Projected(arc_sample(origin, from, to, i - 1))
            },
    )
}

/// The bearings between which a quadrant is swept.
pub open spec fn quad_sweep(quad: Quad) -> Arc {
    match quad {
        Quad::North => Arc {
            from: Scalar { bits: DEG_45_BITS },
            to: Scalar { bits: DEG_MINUS_45_BITS },
        },
        Quad::East => Arc { from: Scalar { bits: DEG_135_BITS }, to: Scalar { bits: DEG_45_BITS } },
        Quad::South => Arc {
            from: Scalar { bits: DEG_225_BITS },
            to: Scalar { bits: DEG_135_BITS },
        },
        Quad::West => Arc {
            from: Scalar { bits: DEG_315_BITS },
            to: Scalar { bits: DEG_225_BITS },
        },
    }
}

/// The shape of a location seen from `origin`, where rays are drawn
/// `range` metres long.
pub open spec fn shape_of(location: Location, origin: Position3d, range: Scalar) -> Shape {
    match location {
        Location::Position3d(p) => Shape::Point {
            at: Vertex::Known(p),
            mode: AltitudeMode::Absolute,
        },
        Location::Position2d(p) => Shape::Point {
            at: Vertex::Known(p.grounded()),
            mode: AltitudeMode::ClampToGround,
        },
        Location::BearingElevationDistance { bearing, elevation, distance } => Shape::Point {
            at: Vertex::Projected(offset_from(origin, bearing, elevation, distance)),
            mode: AltitudeMode::Absolute,
        },
        Location::BearingElevation { bearing, elevation } => Shape::Ray {
            from: origin,
            to: offset_from(origin, bearing, elevation, range),
            mode: AltitudeMode::Absolute,
        },
        Location::Bearing { bearing } => Shape::Ray {
            from: origin,
            to: offset_from(origin, bearing, Scalar::zero(), range),
            mode: AltitudeMode::ClampToGround,
        },
        Location::Quad { quad } => Shape::Sector { origin, sweep: quad_sweep(quad) },
        Location::Arc(arc) => Shape::Sector { origin, sweep: arc },
    }
}

/// The projections that a shape needs, in the order of its corners.
pub open spec fn needed(shape: Shape) -> Seq<Projection> {
    match shape {
        Shape::Point { at: Vertex::Known(_), .. } => Seq::empty(),
        Shape::Point { at: Vertex::Projected(p), .. } => seq![p],
        Shape::Ray { to, .. } => seq![to],
        Shape::Sector { origin, sweep } => arc_samples(origin, sweep.from, sweep.to),
    }
}

/// The primitive that a shape becomes once `projected` holds the result of
/// each of its projections, in order; none where their number is wrong.
pub open spec fn completed(shape: Shape, projected: Seq<Position3d>) -> Option<PrimitiveModel> {
    if projected.len() != needed(shape).len() {
        None
    } else {
        Some(
            match shape {
                Shape::Point { at: Vertex::Known(position), mode } => PrimitiveModel::Point {
                    position,
                    mode,
                },
                Shape::Point { at: Vertex::Projected(_), mode } => PrimitiveModel::Point {
                    position: projected[0],
                    mode,
                },
                Shape::Ray { from, mode, .. } => PrimitiveModel::Ray {
                    from,
                    to: projected[0],
                    mode,
                },
                Shape::Sector { origin, .. } => PrimitiveModel::SectorPolygon {
                    ring: seq![origin] + projected,
                },
            },
        )
    }
}

/// The polar offset that has to be projected to find the position at
/// `distance` metres from `origin` along the given azimuth and elevation.
pub fn distance_from_position(
    origin: Position3d,
    azimuth: Scalar,
    elevation: Scalar,
    distance: Scalar,
) -> (p: Projection)
    ensures
        p == offset_from(origin, azimuth, elevation, distance),
{
    Projection { origin, azimuth: Azimuth::Exact(azimuth), elevation, distance }
}

/// The ray of a record that gives a bearing only: along the ground.
pub fn ray_from_bearing(
    cuas_origin: Position3d,
    bearing: Scalar,
    ray_length: Scalar,
) -> (shape: Shape)
    ensures
        shape == shape_of(Location::Bearing { bearing }, cuas_origin, ray_length),
{
    let level = Scalar { bits: ZERO_BITS };
    Shape::Ray {
        from: cuas_origin,
        to: distance_from_position(cuas_origin, bearing, level, ray_length),
        mode: AltitudeMode::ClampToGround,
    }
}

/// The ray of a record that gives a bearing and an elevation.
pub fn ray_from_bearing_elevation(
    cuas_origin: Position3d,
    bearing: Scalar,
    elevation: Scalar,
    ray_length: Scalar,
) -> (shape: Shape)
    ensures
        shape == shape_of(
            Location::BearingElevation { bearing, elevation },
            cuas_origin,
            ray_length,
        ),
{
    Shape::Ray {
        from: cuas_origin,
        to: distance_from_position(cuas_origin, bearing, elevation, ray_length),
        mode: AltitudeMode::Absolute,
    }
}

/// The point of a record that gives bearing, elevation and distance. The
/// shape does not depend on the length of rays.
pub fn point_from_bearing_elevation_distance(
    cuas_origin: Position3d,
    bearing: Scalar,
    elevation: Scalar,
    distance: Scalar,
) -> (shape: Shape)
    ensures
        forall|range: Scalar|
            shape == #[trigger] shape_of(
                Location::BearingElevationDistance { bearing, elevation, distance },
                cuas_origin,
                range,
            ),
{
    Shape::Point {
        at: Vertex::Projected(distance_from_position(cuas_origin, bearing, elevation, distance)),
        mode: AltitudeMode::Absolute,
    }
}

/// The sector between two bearings around the sensor.
pub fn create_arc_polygon(
    bearing_from: Scalar,
    bearing_to: Scalar,
    static_cuas_origin: Position3d,
) -> (shape: Shape)
    ensures
        forall|range: Scalar|
            shape == #[trigger] shape_of(
                Location::Arc(Arc { from: bearing_from, to: bearing_to }),
                static_cuas_origin,
                range,
            ),
{
    Shape::Sector {
        origin: static_cuas_origin,
        sweep: Arc { from: bearing_from, to: bearing_to },
    }
}

/// The bearings between which a quadrant is swept: north from 45 to -45,
/// east from 135 to 45, south from 225 to 135, west from 315 to 225.
pub fn quad_bearings(quad: Quad) -> (sweep: Arc)
    ensures
        sweep == quad_sweep(quad),
{
    match quad {
        Quad::North => Arc {
            from: Scalar { bits: DEG_45_BITS },
            to: Scalar { bits: DEG_MINUS_45_BITS },
        },
        Quad::East => Arc { from: Scalar { bits: DEG_135_BITS }, to: Scalar { bits: DEG_45_BITS } },
        Quad::South => Arc {
            from: Scalar { bits: DEG_225_BITS },
            to: Scalar { bits: DEG_135_BITS },
        },
        Quad::West => Arc {
            from: Scalar { bits: DEG_315_BITS },
            to: Scalar { bits: DEG_225_BITS },
        },
    }
}

/// Decides what a location is drawn as, seen from `origin`, where rays
/// are drawn `range` metres long.
pub fn resolve(location: Location, origin: Position3d, range: Scalar) -> (shape: Shape)
    ensures
        shape == shape_of(location, origin, range),
{
    match location {
        Location::Position3d(p) => Shape::Point {
            at: Vertex::Known(p),
            mode: AltitudeMode::Absolute,
        },
        Location::Position2d(p) => Shape::Point {
            at: Vertex::Known(p.on_ground()),
            mode: AltitudeMode::ClampToGround,
        },
        Location::BearingElevationDistance { bearing, elevation, distance } => {
            point_from_bearing_elevation_distance(origin, bearing, elevation, distance)
        },
        Location::BearingElevation { bearing, elevation } => {
            ray_from_bearing_elevation(origin, bearing, elevation, range)
        },
        Location::Bearing { bearing } => ray_from_bearing(origin, bearing, range),
        Location::Quad { quad } => {
            let sweep = quad_bearings(quad);
            let shape = create_arc_polygon(sweep.from, sweep.to, origin);
            assert(shape == shape_of(Location::Arc(sweep), origin, range));
            shape
        },
        Location::Arc(arc) => {
            let shape = create_arc_polygon(arc.from, arc.to, origin);
            assert(shape == shape_of(Location::Arc(arc), origin, range));
            shape
        },
    }
}

/// The boundary of the sector swept from `bearing_from` to `bearing_to`
/// around `origin`: the origin itself, then 64 samples on the arc.
pub fn tessellate(
    bearing_from: Scalar,
    bearing_to: Scalar,
    origin: Position3d,
) -> (ring: Vec<Vertex>)
    ensures
        ring@ == arc_ring(bearing_from, bearing_to, origin),
        ring@.len() == 65,
        ring@[0] == Vertex::Known(origin),
        forall|i: int|
            1 <= i < 65 ==> #[trigger] ring@[i] == Vertex::Projected(
                arc_sample(origin, bearing_from, bearing_to, i - 1),
            ),
{
    let mut ring: Vec<Vertex> = Vec::new();
    ring.push(Vertex::Known(origin));
    let mut step: u64 = 0;
    while step < ARC_POINT_COUNT
        invariant
            step <= ARC_POINT_COUNT,
            ring@.len() == step + 1,
            forall|i: int|
                0 <= i < ring@.len() ==> ring@[i] == arc_ring(bearing_from, bearing_to, origin)[i],
        decreases ARC_POINT_COUNT - step,
    {
        ring.push(
            Vertex::Projected(
                Projection {
                    origin,
                    azimuth: Azimuth::Swept { from: bearing_from, to: bearing_to, step },
                    elevation: Scalar { bits: ZERO_BITS },
                    distance: Scalar { bits: HUNDRED_BITS },
                },
            ),
        );
        step = step + 1;
    }
    assert(ring@ =~= arc_ring(bearing_from, bearing_to, origin));
    ring
}

impl Shape {
    /// The projections that the shape needs before it can be drawn, in
    /// the order of its corners.
    pub fn projections(&self) -> (list: Vec<Projection>)
        ensures
            list@ == needed(*self),
    {
        let mut list: Vec<Projection> = Vec::new();
        match *self {
            Shape::Point { at: Vertex::Known(_), .. } => {},
            Shape::Point { at: Vertex::Projected(p), .. } => {
                list.push(p);
            },
            Shape::Ray { to, .. } => {
                list.push(to);
            },
            Shape::Sector { origin, sweep } => {
                let from = sweep.from;
                let to = sweep.to;
                let mut step: u64 = 0;
                while step < ARC_POINT_COUNT
                    invariant
                        step <= ARC_POINT_COUNT,
                        list@.len() == step,
                        forall|i: int|
                            0 <= i < list@.len() ==> list@[i] == arc_sample(origin, from, to, i),
                    decreases ARC_POINT_COUNT - step,
                {
                    list.push(
                        Projection {
                            origin,
                            azimuth: Azimuth::Swept { from, to, step },
                            elevation: Scalar { bits: ZERO_BITS },
                            distance: Scalar { bits: HUNDRED_BITS },
                        },
                    );
                    step = step + 1;
                }
            },
        }
        assert(list@ =~= needed(*self));
        list
    }

    /// Puts the projected positions into the shape. `projected` holds the
    /// result of each projection of `projections`, in that order; with
    /// another number of positions there is no primitive.
    pub fn complete(&self, projected: &Vec<Position3d>) -> (primitive: Option<GeometryPrimitive>)
        ensures
            primitive.is_some() <==> projected@.len() == needed(*self).len(),
            match primitive {
                Some(g) => completed(*self, projected@) == Some(g@),
                None => completed(*self, projected@) is None,
            },
    {
        match *self {
            Shape::Point { at: Vertex::Known(position), mode } => {
                if projected.len() != 0 {
                    return None;
                }
                Some(GeometryPrimitive::Point { position, mode })
            },
            Shape::Point { at: Vertex::Projected(_), mode } => {
                if projected.len() != 1 {
                    return None;
                }
                Some(GeometryPrimitive::Point { position: projected[0], mode })
            },
            Shape::Ray { from, mode, .. } => {
                if projected.len() != 1 {
                    return None;
                }
                Some(GeometryPrimitive::Ray { from, to: projected[0], mode })
            },
            Shape::Sector { origin, .. } => {
                if projected.len() != 64 {
                    return None;
                }
                let mut ring: Vec<Position3d> = Vec::new();
                ring.push(origin);
                let mut i: usize = 0;
                while i < projected.len()
                    invariant
                        i <= projected@.len(),
                        ring@.len() == i + 1,
                        ring@[0] == origin,
                        forall|j: int| 0 <= j < i ==> ring@[j + 1] == projected@[j],
                    decreases projected@.len() - i,
                {
                    ring.push(projected[i]);
                    i = i + 1;
                }
                assert(ring@ =~= seq![origin] + projected@);
                Some(GeometryPrimitive::SectorPolygon { ring })
            },
        }
    }
}

/// A sector's boundary has 65 corners; the first is the origin, and each
/// of the others is a projection from that origin at elevation 0 and at
/// the fixed radius of 100 metres.
pub proof fn arc_ring_lies_on_circle(from: Scalar, to: Scalar, origin: Position3d)
    ensures
        arc_ring(from, to, origin).len() == 65,
        arc_ring(from, to, origin)[0] == Vertex::Known(origin),
        forall|i: int|
            1 <= i < 65 ==> {
                let v = #[trigger] arc_ring(from, to, origin)[i];
                &&& v is Projected
                &&& v->Projected_0.origin == origin
                &&& v->Projected_0.elevation == Scalar::zero()
                &&& v->Projected_0.distance.bits == HUNDRED_BITS
                &&& v->Projected_0.azimuth == (Azimuth::Swept { from, to, step: (i - 1) as u64 })
            },
{
}

/// Resolving is a function of the location, the origin and the range
/// alone: two shapes that `resolve` may return for them are the same shape
/// and need the same projections, and two primitives that `complete` may
/// make of them from the same projected positions are the same primitive.
pub proof fn resolution_is_repeatable(
    location: Location,
    origin: Position3d,
    range: Scalar,
    first: Shape,
    second: Shape,
    projected: Seq<Position3d>,
    a: PrimitiveModel,
    b: PrimitiveModel,
)
    requires
        first == shape_of(location, origin, range),
        second == shape_of(location, origin, range),
        completed(first, projected) == Some(a),
        completed(second, projected) == Some(b),
    ensures
        first == second,
        needed(first) == needed(second),
        a == b,
        a.coordinates() == b.coordinates(),
{
}

/// A shape is completed exactly by as many positions as it needs
/// projections: none for a known point, one for a projected point or a
/// ray, 64 for a sector.
pub proof fn shapes_need_their_projections(shape: Shape, projected: Seq<Position3d>)
    ensures
        completed(shape, projected).is_some() <==> projected.len() == needed(shape).len(),
        shape matches Shape::Point { at: Vertex::Known(_), .. } ==> needed(shape).len() == 0,
        shape matches Shape::Point { at: Vertex::Projected(_), .. } ==> needed(shape).len() == 1,
        shape is Ray ==> needed(shape).len() == 1,
        shape is Sector ==> needed(shape).len() == 64,
        completed(shape, projected) matches Some(PrimitiveModel::SectorPolygon { ring })
            ==> ring.len() == 65 && ring[0] == shape->Sector_origin,
{
}

/// A sector is drawn with the same radius whatever the range of the
/// sensor, and a point with a known distance does not depend on it either.
pub proof fn range_only_stretches_rays(location: Location, origin: Position3d, a: Scalar, b: Scalar)
    ensures
        !(location is BearingElevation || location is Bearing) ==> shape_of(location, origin, a)
            == shape_of(location, origin, b),
{
}

} // verus!
