//! Reading a sensor position given as text.
//!
//! The position is written as `longitude,latitude` or
//! `longitude,latitude,altitude`. This module finds the fields of such a
//! text and puts the numbers read from them together; reading a number out
//! of a field is left to the caller.

use crate::model::Position3d;
use crate::scalar::Scalar;
use vstd::prelude::*;
use vstd::string::StringSliceAdditionalSpecFns;

verus! {

/// The byte that separates two fields.
pub const COMMA: u8 = 0x2c;

/// Reads a position from its fields.
#[derive(Clone, Copy, Debug)]
pub struct Position3dParser;

/// A field of a text: the bytes from `start` up to `end`, which is not
/// included.
#[derive(Clone, Copy, Debug, PartialEq, Eq, Structural)]
pub struct Field {
    pub start: usize,
    pub end: usize,
}

/// What was found in the place of one number.
#[derive(Clone, Copy, Debug, PartialEq, Eq, Structural)]
pub enum FieldValue {
    /// The text has no such field.
    Missing,
    /// The field is there and holds no number.
    Invalid,
    /// The number that the field holds.
    Number(Scalar),
}

/// Why a text is no position.
#[derive(Clone, Copy, Debug, PartialEq, Eq, Structural)]
pub enum OriginError {
    /// Longitude or latitude is missing: at least two values are needed.
    TooFewValues,
    /// One of the first three fields holds no number.
    InvalidNumber,
}

/// Whether the bytes from `start` up to `end` are a field: they hold no
/// comma, and a comma or an end of the text stands on either side.
pub open spec fn is_field(bytes: Seq<u8>, start: int, end: int) -> bool {
    &&& 0 <= start <= end <= bytes.len()
    &&& (start == 0 || bytes[start - 1] == COMMA)
    &&& (end == bytes.len() || bytes[end] == COMMA)
    &&& forall|i: int| start <= i < end ==> #[trigger] bytes[i] != COMMA
}

/// Whether `fields` are the fields of `bytes`, from the first to the
/// last. A text without a comma is one field, and so is the empty text.
pub open spec fn fields_of(bytes: Seq<u8>, fields: Seq<Field>) -> bool {
    &&& fields.len() >= 1
    &&& fields[0].start == 0
    &&& fields[fields.len() - 1].end == bytes.len()
    &&& forall|k: int|
        0 <= k < fields.len() ==> is_field(
            bytes,
            (#[trigger] fields[k]).start as int,
            fields[k].end as int,
        )
    &&& forall|k: int|
        0 < k < fields.len() ==> (#[trigger] fields[k]).start == fields[k - 1].end + 1
}

/// The position that three fields give. Longitude and latitude must be
/// there; the altitude may be missing and is then 0. The fields are looked
/// at in this order, and the first that fails decides the error.
pub open spec fn origin_from(
    longitude: FieldValue,
    latitude: FieldValue,
    altitude: FieldValue,
) -> Result<Position3d, OriginError> {
    match (longitude, latitude, altitude) {
        (FieldValue::Missing, _, _) => Err(OriginError::TooFewValues),
        (FieldValue::Invalid, _, _) => Err(OriginError::InvalidNumber),
        (FieldValue::Number(_), FieldValue::Missing, _) => Err(OriginError::TooFewValues),
        (FieldValue::Number(_), FieldValue::Invalid, _) => Err(OriginError::InvalidNumber),
        (FieldValue::Number(_), FieldValue::Number(_), FieldValue::Invalid) => Err(
            OriginError::InvalidNumber,
        ),
        (FieldValue::Number(lon), FieldValue::Number(lat), FieldValue::Missing) => Ok(
            Position3d { lat, lon, height: Scalar::zero() },
        ),
        (FieldValue::Number(lon), FieldValue::Number(lat), FieldValue::Number(height)) => Ok(
            Position3d { lat, lon, height },
        ),
    }
}

impl Position3dParser {
    /// Finds the fields of a text: the stretches between its commas.
    pub fn split_fields(&self, value: &str) -> (fields: Vec<Field>)
        ensures
            fields_of(value.spec_bytes(), fields@),
    {
        let bytes = value.as_bytes();
        let mut fields: Vec<Field> = Vec::new();
        let mut start: usize = 0;
        let mut i: usize = 0;
        while i < bytes.len()
            invariant
                bytes@ == value.spec_bytes(),
                start <= i <= bytes@.len(),
                start == 0 || bytes@[start - 1] == COMMA,
                forall|j: int| start <= j < i ==> #[trigger] bytes@[j] != COMMA,
                forall|k: int|
                    0 <= k < fields@.len() ==> is_field(
                        bytes@,
                        (#[trigger] fields@[k]).start as int,
                        fields@[k].end as int,
                    ),
                forall|k: int|
                    0 < k < fields@.len() ==> (#[trigger] fields@[k]).start == fields@[k - 1].end
                        + 1,
                fields@.len() == 0 ==> start == 0,
                fields@.len() > 0 ==> fields@[0].start == 0 && start == fields@[fields@.len()
                    - 1].end + 1,
            decreases bytes@.len() - i,
        {
            if bytes[i] == COMMA {
                fields.push(Field { start, end: i });
                start = i + 1;
            }
            i = i + 1;
        }
        fields.push(Field { start, end: i });
        fields
    }

    /// Puts the numbers read from the first three fields together.
    pub fn assemble(
        &self,
        longitude: FieldValue,
        latitude: FieldValue,
        altitude: FieldValue,
    ) -> (position: Result<Position3d, OriginError>)
        ensures
            position == origin_from(longitude, latitude, altitude),
    {
        let lon = match longitude {
            FieldValue::Missing => { return Err(OriginError::TooFewValues); },
            FieldValue::Invalid => { return Err(OriginError::InvalidNumber); },
            FieldValue::Number(lon) => lon,
        };
        let lat = match latitude {
            FieldValue::Missing => { return Err(OriginError::TooFewValues); },
            FieldValue::Invalid => { return Err(OriginError::InvalidNumber); },
            FieldValue::Number(lat) => lat,
        };
        let height = match altitude {
            FieldValue::Missing => Scalar { bits: 0 },
            FieldValue::Invalid => { return Err(OriginError::InvalidNumber); },
            FieldValue::Number(height) => height,
        };
        Ok(Position3d { lat, lon, height })
    }
}

/// The fields of a text follow one another, and a comma stands behind
/// each of them but the last.
pub proof fn fields_are_ordered(bytes: Seq<u8>, fields: Seq<Field>, k: int, l: int)
    requires
        fields_of(bytes, fields),
        0 <= k < l < fields.len(),
    ensures
        fields[k].end < fields[l].start,
        bytes[fields[k].end as int] == COMMA,
    decreases l - k,
{
    assert(is_field(bytes, fields[k].start as int, fields[k].end as int));
    assert(is_field(bytes, fields[l].start as int, fields[l].end as int));
    if k + 1 < l {
        fields_are_ordered(bytes, fields, k, l - 1);
        assert(is_field(bytes, fields[l - 1].start as int, fields[l - 1].end as int));
    }
    assert(fields[l].start == fields[l - 1].end + 1);
}

/// Two fields of one text that begin at the same place end at the same
/// place.
proof fn field_ends_agree(bytes: Seq<u8>, start: int, first: int, second: int)
    requires
        is_field(bytes, start, first),
        is_field(bytes, start, second),
    ensures
        first <= second,
{
    if second < first {
        assert(bytes[second] == COMMA);
    }
}

/// In two lists of the fields of one text, the field at each place is the
/// same.
proof fn field_agrees(bytes: Seq<u8>, a: Seq<Field>, b: Seq<Field>, k: int)
    requires
        fields_of(bytes, a),
        fields_of(bytes, b),
        0 <= k < a.len(),
    ensures
        k < b.len(),
        a[k] == b[k],
    decreases k,
{
    assert(is_field(bytes, a[k].start as int, a[k].end as int));
    if k > 0 {
        field_agrees(bytes, a, b, k - 1);
        assert(is_field(bytes, b[k - 1].start as int, b[k - 1].end as int));
        assert(a[k].start == a[k - 1].end + 1);
        if k >= b.len() {
            assert(b[b.len() - 1].end == bytes.len());
        }
        assert(b[k].start == b[k - 1].end + 1);
    }
    assert(is_field(bytes, b[k].start as int, b[k].end as int));
    field_ends_agree(bytes, a[k].start as int, a[k].end as int, b[k].end as int);
    field_ends_agree(bytes, a[k].start as int, b[k].end as int, a[k].end as int);
}

/// A text has one list of fields: two lists that both hold its fields are
/// the same list.
pub proof fn fields_are_determined(bytes: Seq<u8>, a: Seq<Field>, b: Seq<Field>)
    requires
        fields_of(bytes, a),
        fields_of(bytes, b),
    ensures
        a == b,
{
    field_agrees(bytes, a, b, a.len() - 1);
    field_agrees(bytes, b, a, b.len() - 1);
    assert forall|k: int| 0 <= k < a.len() implies a[k] == b[k] by {
        field_agrees(bytes, a, b, k);
    }
    assert(a =~= b);
}

} // verus!
