use track2kml::origin::{Field, FieldValue, OriginError, Position3dParser};
use track2kml::{Position3d, Scalar};

fn s(value: f64) -> Scalar {
    Scalar::from_bits(value.to_bits())
}

fn read(text: &str) -> Result<Position3d, OriginError> {
    let parser = Position3dParser;
    let fields = parser.split_fields(text);
    let value = |k: usize| match fields.get(k) {
        None => FieldValue::Missing,
        Some(field) => match text[field.start..field.end].parse::<f64>() {
            Ok(number) => FieldValue::Number(s(number)),
            Err(_) => FieldValue::Invalid,
        },
    };
    parser.assemble(value(0), value(1), value(2))
}

#[test]
fn fields_lie_between_commas() {
    let parser = Position3dParser;
    assert_eq!(
        parser.split_fields("1.5,2.5,3"),
        vec![Field { start: 0, end: 3 }, Field { start: 4, end: 7 }, Field { start: 8, end: 9 }]
    );
    assert_eq!(parser.split_fields(""), vec![Field { start: 0, end: 0 }]);
    assert_eq!(parser.split_fields("abc"), vec![Field { start: 0, end: 3 }]);
    assert_eq!(
        parser.split_fields("a,,b,"),
        vec![
            Field { start: 0, end: 1 },
            Field { start: 2, end: 2 },
            Field { start: 3, end: 4 },
            Field { start: 5, end: 5 }
        ]
    );
    assert_eq!(parser.split_fields(","), vec![Field { start: 0, end: 0 }, Field { start: 1, end: 1 }]);
}

#[test]
fn origin_with_three_numbers() {
    assert_eq!(
        read("4.25,50.5,120"),
        Ok(Position3d { lat: s(50.5), lon: s(4.25), height: s(120.0) })
    );
    assert_eq!(
        read("4.25,50.5,120,9,x"),
        Ok(Position3d { lat: s(50.5), lon: s(4.25), height: s(120.0) })
    );
}

#[test]
fn origin_without_altitude_lies_at_zero() {
    assert_eq!(read("-4.25,50.5"), Ok(Position3d { lat: s(50.5), lon: s(-4.25), height: s(0.0) }));
}

#[test]
fn origin_needs_two_values() {
    assert_eq!(read("4.25"), Err(OriginError::TooFewValues));
    let parser = Position3dParser;
    assert_eq!(
        parser.assemble(FieldValue::Missing, FieldValue::Missing, FieldValue::Missing),
        Err(OriginError::TooFewValues)
    );
    assert_eq!(
        parser.assemble(FieldValue::Missing, FieldValue::Invalid, FieldValue::Invalid),
        Err(OriginError::TooFewValues)
    );
}

#[test]
fn origin_needs_numbers() {
    assert_eq!(read(""), Err(OriginError::InvalidNumber));
    assert_eq!(read("east,50.5"), Err(OriginError::InvalidNumber));
    assert_eq!(read("4.25,north"), Err(OriginError::InvalidNumber));
    assert_eq!(read("4.25,50.5,high"), Err(OriginError::InvalidNumber));
    assert_eq!(read("x"), Err(OriginError::InvalidNumber));
    let parser = Position3dParser;
    assert_eq!(
        parser.assemble(FieldValue::Invalid, FieldValue::Missing, FieldValue::Missing),
        Err(OriginError::InvalidNumber)
    );
    assert_eq!(
        parser.assemble(FieldValue::Number(s(1.0)), FieldValue::Invalid, FieldValue::Missing),
        Err(OriginError::InvalidNumber)
    );
}
