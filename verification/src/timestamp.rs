//! The time of a record as text.
//!
//! A record carries its time as milliseconds since the Unix epoch. It is
//! written out as an RFC 3339 date and time in UTC, which exists for the
//! years up to 9999 only: a later time is an error, and ends the
//! conversion of the document.

use vstd::prelude::*;

verus! {

/// The last millisecond of the year 9999: 9999-12-31T23:59:59.999Z.
pub const MAX_TIMESTAMP_MILLIS: u64 = 253_402_300_799_999;

/// The last nanosecond of the year 9999.
pub const MAX_TIMESTAMP_NANOS: i128 = 253_402_300_799_999_999_999;

/// The number of nanoseconds in a millisecond.
pub const NANOS_PER_MILLI: i128 = 1_000_000;

#[verifier::external_type_specification]
#[verifier::external_body]
pub struct ExTimeError(time::Error);

/// The RFC 3339 text of the moment `nanos` nanoseconds after the Unix
/// epoch, in UTC, as the `time` crate writes it.
pub uninterp spec fn rfc3339_text(nanos: int) -> Seq<char>;

/// A time that cannot be written as a date: it lies beyond the year 9999.
#[derive(Clone, Copy, Debug, PartialEq, Eq, Structural)]
pub struct TimeConversionError {
    /// The offending time, in milliseconds since the Unix epoch.
    pub millis: u64,
}

/// Whether a time can be written as a date.
pub open spec fn representable(millis: u64) -> bool {
    millis <= MAX_TIMESTAMP_MILLIS
}

/// Calls `time::OffsetDateTime::from_unix_timestamp_nanos` and then
/// `OffsetDateTime::format` with `Rfc3339` on what it gave.
///
/// Believed of them, for a moment at or after the epoch: the first gives a
/// moment in UTC unless the moment lies beyond the last date that the
/// crate can hold, which is the end of the year 9999 or, where the crate
/// is built for large dates, later; the second writes any moment in UTC
/// whose year has at most four digits and refuses all others. Together
/// they give a text exactly for the moments up to the end of the year
/// 9999, and the text depends on the moment alone.
#[verifier::external_body]
fn rfc3339_from_unix_nanos(nanos: i128) -> (text: Result<String, time::Error>)
    requires
        0 <= nanos,
    ensures
        text.is_ok() <==> nanos <= MAX_TIMESTAMP_NANOS,
        text matches Ok(s) ==> s@ == rfc3339_text(nanos as int),
{
    let moment = time::OffsetDateTime::from_unix_timestamp_nanos(nanos)?;
    Ok(moment.format(&time::format_description::well_known::Rfc3339)?)
}

/// What becomes of the time `millis` once the attempt to write it as a
/// date has ended in `formatted`: the text where there is one, else the
/// error that names the time.
pub fn timestamp_from(
    millis: u64,
    formatted: Result<String, time::Error>,
) -> (outcome: Result<String, TimeConversionError>)
    ensures
        match formatted {
            Ok(text) => outcome == Ok::<String, TimeConversionError>(text),
            Err(_) => outcome == Err::<String, TimeConversionError>(TimeConversionError { millis }),
        },
{
    match formatted {
        Ok(text) => Ok(text),
        Err(_) => Err(TimeConversionError { millis }),
    }
}

/// Writes a time given in milliseconds since the Unix epoch as an
/// RFC 3339 date and time in UTC.
pub fn timestamp_text(millis: u64) -> (outcome: Result<String, TimeConversionError>)
    ensures
        outcome.is_ok() <==> representable(millis),
        outcome matches Ok(text) ==> text@ == rfc3339_text(millis * NANOS_PER_MILLI),
        outcome matches Err(e) ==> e.millis == millis,
{
    let nanos: i128 = (millis as i128) * NANOS_PER_MILLI;
    assert(nanos <= MAX_TIMESTAMP_NANOS <==> millis <= MAX_TIMESTAMP_MILLIS);
    timestamp_from(millis, rfc3339_from_unix_nanos(nanos))
}

/// Whether the first `upto` texts are those of the first `upto` times.
pub open spec fn texts_match(times: Seq<u64>, texts: Seq<String>, upto: int) -> bool {
    &&& forall|i: int| 0 <= i < upto ==> representable(#[trigger] times[i])
    &&& forall|i: int|
        0 <= i < upto ==> (#[trigger] texts[i])@ == rfc3339_text(times[i] * NANOS_PER_MILLI)
}

/// Whether `index` is the first time that cannot be written as a date.
pub open spec fn first_unrepresentable(times: Seq<u64>, index: int) -> bool {
    &&& 0 <= index < times.len()
    &&& !representable(times[index])
    &&& forall|i: int| 0 <= i < index ==> representable(#[trigger] times[i])
}

/// Writes each of the times as text, or fails at the first that cannot be
/// written.
pub fn timestamp_texts(times: &Vec<u64>) -> (outcome: Result<Vec<String>, TimeConversionError>)
    ensures
        outcome.is_ok() <==> forall|i: int|
            0 <= i < times@.len() ==> representable(#[trigger] times@[i]),
        outcome matches Ok(texts) ==> texts@.len() == times@.len() && texts_match(
            times@,
            texts@,
            times@.len() as int,
        ),
        outcome matches Err(e) ==> exists|index: int| #[trigger]
            first_unrepresentable(times@, index) && e.millis == times@[index],
{
    let mut texts: Vec<String> = Vec::new();
    let mut i: usize = 0;
    while i < times.len()
        invariant
            i <= times@.len(),
            texts@.len() == i,
            texts_match(times@, texts@, i as int),
        decreases times@.len() - i,
    {
        match timestamp_text(times[i]) {
            Ok(text) => {
                let ghost before = texts@;
                texts.push(text);
                assert forall|j: int| 0 <= j < i + 1 implies (#[trigger] texts@[j])@
                    == rfc3339_text(times@[j] * NANOS_PER_MILLI) by {
                    if j < i {
                        assert(texts@[j] == before[j]);
                    }
                }
            },
            Err(e) => {
                assert(first_unrepresentable(times@, i as int));
                return Err(e);
            },
        }
        i = i + 1;
    }
    Ok(texts)
}

} // verus!
