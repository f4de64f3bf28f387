//! Geometry and trajectory segmentation for sensor detections and tracks.
//!
//! A document holds detections and tracks whose records place an object
//! either absolutely or by polar measurements taken from a sensor. This
//! library decides what each record is drawn as, which projections from
//! the sensor's position that needs, and how the records of a track fall
//! into trajectories.

pub mod detection;
pub mod document;
pub mod ext_data;
pub mod geometry;
pub mod model;
pub mod options;
pub mod order;
pub mod origin;
pub mod scalar;
pub mod timestamp;
pub mod tracking;

pub use detection::{detection_shapes, draw_detection, DetectionDrawing};
pub use document::{draw_document, DocumentDrawing};
pub use geometry::{
    create_arc_polygon, distance_from_position, point_from_bearing_elevation_distance,
    ray_from_bearing, ray_from_bearing_elevation, resolve, tessellate, AltitudeMode, Azimuth,
    Coordinate, GeometryPrimitive, Projection, Shape, Vertex,
};
pub use model::{
    Alarm, Arc, Classification, Database, Detection, DetectionRecord, Location, Position2d,
    Position3d, Quad, Track, TrackingRecord, Velocity,
};
pub use options::WriteAsKmlOptions;
pub use origin::Position3dParser;
pub use scalar::Scalar;
pub use timestamp::{timestamp_text, TimeConversionError};
pub use tracking::{draw_track, segment, Event, Run, Segmentation, TrackDrawing};
