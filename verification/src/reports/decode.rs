//! Tolerant decoders from an untyped value to a primitive.

use crate::calendar::{
    date_from_lookup, date_or_error, epoch_day, utc_calendar_date, utc_date_of_timestamp,
};
use crate::calendar::CalendarDate;
use crate::error::ErrorKind;
use crate::numeral::{in_range, lemma_numeral_of_decimal, whole_number, whole_number_of};
use crate::text::decimal;
use crate::value::Value;
use vstd::prelude::*;

verus! {

/// A decoded string by its characters.
pub open spec fn text_result(res: Result<String, ErrorKind>) -> Result<Seq<char>, ErrorKind> {
    match res {
        Ok(s) => Ok(s@),
        Err(kind) => Err(kind),
    }
}

/// What a value decodes to as a string.
pub open spec fn decoded_text(value: Value) -> Result<Seq<char>, ErrorKind> {
    match value.text() {
        Some(s) => Ok(s),
        None => Err(ErrorKind::TypeMismatch),
    }
}

/// What a value decodes to as a whole number: the number of a whole-number
/// value that 64 signed bits hold.
pub open spec fn decoded_integer(value: Value) -> Result<i64, ErrorKind> {
    match value.integer() {
        Some(n) => Ok(n),
        None => Err(ErrorKind::TypeMismatch),
    }
}

/// The epoch second that a value names.
///
/// The service writes one timestamp in three ways: as an integer, as a
/// number with a fraction, and as text that holds a numeral. All three mean
/// the whole second; a fraction is cut off toward zero. A whole number that
/// 64 signed bits do not hold is a timestamp out of range, as number and as
/// text alike.
///
/// Text is read exactly, digit by digit. Reading it as a floating-point
/// number first would round: `"1700006399.99999999"` is the last second of
/// 14 November 2023 here, and the first of the next day once rounded.
pub open spec fn epoch_seconds(value: Value) -> Result<i64, ErrorKind> {
    match value {
        Value::Integer(secs) => Ok(secs),
        Value::Unsigned(n) => match in_range(n as int) {
            Some(secs) => Ok(secs),
            None => Err(ErrorKind::DateDecodeError),
        },
        Value::Fraction(secs) => Ok(secs),
        Value::Text(s) => match whole_number_of(s@) {
            Some(secs) => Ok(secs),
            None => Err(ErrorKind::DateDecodeError),
        },
        _ => Err(ErrorKind::TypeMismatch),
    }
}

/// What a value decodes to as a date: the UTC calendar date of its epoch
/// second.
pub open spec fn decoded_date(value: Value) -> Result<CalendarDate, ErrorKind> {
    match epoch_seconds(value) {
        Ok(secs) => date_or_error(utc_calendar_date(secs)),
        Err(kind) => Err(kind),
    }
}

/// Decodes a value as a string. Fails with `TypeMismatch` on any other value.
pub fn decode_string(value: &Value) -> (res: Result<String, ErrorKind>)
    ensures
        text_result(res) == decoded_text(*value),
{
    match value {
        Value::Text(s) => Ok(s.clone()),
        _ => Err(ErrorKind::TypeMismatch),
    }
}

/// Decodes a value as a whole number. Fails with `TypeMismatch` on any value
/// but a whole number that 64 signed bits hold.
pub fn decode_integer(value: &Value) -> (res: Result<i64, ErrorKind>)
    ensures
        res == decoded_integer(*value),
{
    match value {
        Value::Integer(n) => Ok(*n),
        Value::Unsigned(n) => if *n <= 9223372036854775807 {
            Ok(*n as i64)
        } else {
            Err(ErrorKind::TypeMismatch)
        },
        _ => Err(ErrorKind::TypeMismatch),
    }
}

/// Reads the epoch second that a value names.
///
/// Fails with `DateDecodeError` on text that is no numeral, on text whose
/// whole part exceeds 64 signed bits and on a whole number that does, and
/// with `TypeMismatch` on a value that is neither a number nor text.
pub fn decode_timestamp(value: &Value) -> (res: Result<i64, ErrorKind>)
    ensures
        res == epoch_seconds(*value),
{
    match value {
        Value::Integer(secs) => Ok(*secs),
        Value::Unsigned(n) => if *n <= 9223372036854775807 {
            Ok(*n as i64)
        } else {
            Err(ErrorKind::DateDecodeError)
        },
        Value::Fraction(secs) => Ok(*secs),
        Value::Text(s) => match whole_number(s.as_str()) {
            Some(secs) => Ok(secs),
            None => Err(ErrorKind::DateDecodeError),
        },
        _ => Err(ErrorKind::TypeMismatch),
    }
}

/// Decodes a value as a calendar date: the UTC date of its epoch second,
/// with no time zone adjustment.
///
/// Fails as [`decode_timestamp`] does, and with `DateDecodeError` where the
/// second lies outside the calendar. A timestamp in text is read exactly and
/// not rounded as a floating-point number would be: see [`epoch_seconds`].
pub fn decode_date(value: &Value) -> (res: Result<CalendarDate, ErrorKind>)
    ensures
        res == decoded_date(*value),
        res matches Ok(date) ==> date.well_formed(),
{
    match decode_timestamp(value) {
        Ok(secs) => date_from_lookup(utc_date_of_timestamp(secs)),
        Err(kind) => Err(kind),
    }
}

/// The service's three ways of writing one instant decode alike: the second
/// as an integer, as a number with a fraction, and as text that holds its
/// decimal rendering, with or without a fraction of zero behind it.
pub proof fn lemma_encodings_agree(secs: i64, plain: String, dotted: String)
    requires
        plain@ == decimal(secs as int),
        dotted@ == decimal(secs as int) + ".0"@,
    ensures
        epoch_seconds(Value::Integer(secs)) == Ok::<i64, ErrorKind>(secs),
        decoded_date(Value::Fraction(secs)) == decoded_date(Value::Integer(secs)),
        decoded_date(Value::Text(plain)) == decoded_date(Value::Integer(secs)),
        decoded_date(Value::Text(dotted)) == decoded_date(Value::Integer(secs)),
{
    reveal_strlit(".0");
    assert(".0"@ =~= seq!['.', '0']);
    lemma_numeral_of_decimal(secs as int);
}

/// Two seconds of one day decode to the same date, or fail alike: the date
/// of a timestamp is the date of its day.
pub proof fn lemma_same_day_same_date(first: i64, second: i64)
    requires
        epoch_day(first) == epoch_day(second),
    ensures
        decoded_date(Value::Integer(first)) == decoded_date(Value::Integer(second)),
{
}

} // verus!
