//! What the caller chooses about the drawing.

use crate::model::{effective_origin, Database, Position3d};
use crate::scalar::{Scalar, HUNDRED_BITS};
use vstd::prelude::*;

verus! {

/// The choices of a conversion.
#[derive(Clone, Copy, Debug)]
#[non_exhaustive]
pub struct WriteAsKmlOptions {
    /// Whether the icons along a trajectory are hidden.
    pub disable_track_icons: bool,
    /// How far the sensor sees, in metres: the length of every ray.
    pub cuas_range: Scalar,
}

impl Default for WriteAsKmlOptions {
    /// Icons are shown and rays have length 0.
    fn default() -> (options: WriteAsKmlOptions)
        ensures
            !options.disable_track_icons,
            options.cuas_range == Scalar::zero(),
    {
        WriteAsKmlOptions { disable_track_icons: false, cuas_range: Scalar { bits: 0 } }
    }
}

/// The length of rays where the caller names none: 100 metres.
pub open spec fn default_range() -> Scalar {
    Scalar { bits: HUNDRED_BITS }
}

/// The length of rays that the caller asked for, or the default.
pub fn range_or_default(given: Option<Scalar>) -> (range: Scalar)
    ensures
        range == match given {
            Some(r) => r,
            None => default_range(),
        },
{
    match given {
        Some(r) => r,
        None => Scalar { bits: HUNDRED_BITS },
    }
}

/// Replaces the sensor position of a document where the caller names
/// one. Nothing else changes.
pub fn override_origin(database: &mut Database, origin: Option<Position3d>)
    ensures
        final(database).static_cuas_location == effective_origin(
            origin,
            old(database).static_cuas_location,
        ),
        final(database).detection == old(database).detection,
        final(database).tracks == old(database).tracks,
{
    match origin {
        Some(p) => {
            database.static_cuas_location = p;
        },
        None => {},
    }
}

impl WriteAsKmlOptions {
    /// The same choices, with the icons along a trajectory hidden or shown.
    pub fn disable_track_icons(self, val: bool) -> (options: WriteAsKmlOptions)
        ensures
            options.disable_track_icons == val,
            options.cuas_range == self.cuas_range,
    {
        WriteAsKmlOptions { disable_track_icons: val, cuas_range: self.cuas_range }
    }

    /// The same choices, with rays of the given length.
    pub fn cuas_range(self, val: Scalar) -> (options: WriteAsKmlOptions)
        ensures
            options.cuas_range == val,
            options.disable_track_icons == self.disable_track_icons,
    {
        WriteAsKmlOptions { disable_track_icons: self.disable_track_icons, cuas_range: val }
    }
}

} // verus!
