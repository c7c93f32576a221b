//! Laws that tie range and length validation to the order of each bound type: the order of the
//! integers, of Unicode scalar values, of `false` before `true`, and of texts by character.

use vstd::prelude::*;

use crate::bound::{text_less, BoundValue};
use crate::text::{decimal, digit_char, signed_decimal};
use crate::validations::{is_length_outcome, is_range_outcome, LengthError, RangeError};

verus! {

/// Range validation of `u8` values follows the order of the integers: a value is valid exactly when
/// it is at least the minimum, at most the maximum, above the exclusive minimum and below the
/// exclusive maximum; a value below the minimum, or else above the maximum, is reported so,
/// with the bound and the value.
pub proof fn law_range_order_u8(
    r: Result<(), RangeError<u8>>,
    value: u8,
    min: Option<u8>,
    max: Option<u8>,
    exclusive_min: Option<u8>,
    exclusive_max: Option<u8>,
)
    requires
        is_range_outcome(r, Some(value), min, max, exclusive_min, exclusive_max),
    ensures
        r is Ok <==> {
            &&& min is Some ==> min->0 <= value
            &&& max is Some ==> value <= max->0
            &&& exclusive_min is Some ==> exclusive_min->0 < value
            &&& exclusive_max is Some ==> value < exclusive_max->0
        },
        min is Some && value < min->0 ==> (r matches Err(
            RangeError::Min { min: b, value: v, .. },
        ) && b == min->0 && v == value),
        (min is Some ==> min->0 <= value) && max is Some && max->0 < value ==> (r matches Err(
            RangeError::Max { max: b, value: v, .. },
        ) && b == max->0 && v == value),
{
}

/// Length validation with `u8` lengths follows the order of the integers: with a required length
/// the length is valid exactly when it equals it; otherwise exactly when it is at least the
/// minimum and at most the maximum, and a length above the maximum (and not below the minimum)
/// is reported so, with the bound and the length.
pub proof fn law_length_order_u8(
    r: Result<(), LengthError<u8>>,
    length: u8,
    equal: Option<u8>,
    min: Option<u8>,
    max: Option<u8>,
)
    requires
        is_length_outcome(r, Some(length), equal, min, max),
    ensures
        equal is Some ==> (r is Ok <==> length == equal->0),
        equal is None ==> (r is Ok <==> (min is Some ==> min->0 <= length) && (max is Some
            ==> length <= max->0)),
        equal is None && (min is Some ==> min->0 <= length) && max is Some && max->0 < length
            ==> (r matches Err(LengthError::Max { max: b, length: l, .. }) && b == max->0 && l
            == length),
{
}

/// Range validation of `u16` values follows the order of the integers: a value is valid exactly when
/// it is at least the minimum, at most the maximum, above the exclusive minimum and below the
/// exclusive maximum; a value below the minimum, or else above the maximum, is reported so,
/// with the bound and the value.
pub proof fn law_range_order_u16(
    r: Result<(), RangeError<u16>>,
    value: u16,
    min: Option<u16>,
    max: Option<u16>,
    exclusive_min: Option<u16>,
    exclusive_max: Option<u16>,
)
    requires
        is_range_outcome(r, Some(value), min, max, exclusive_min, exclusive_max),
    ensures
        r is Ok <==> {
            &&& min is Some ==> min->0 <= value
            &&& max is Some ==> value <= max->0
            &&& exclusive_min is Some ==> exclusive_min->0 < value
            &&& exclusive_max is Some ==> value < exclusive_max->0
        },
        min is Some && value < min->0 ==> (r matches Err(
            RangeError::Min { min: b, value: v, .. },
        ) && b == min->0 && v == value),
        (min is Some ==> min->0 <= value) && max is Some && max->0 < value ==> (r matches Err(
            RangeError::Max { max: b, value: v, .. },
        ) && b == max->0 && v == value),
{
}

/// Length validation with `u16` lengths follows the order of the integers: with a required length
/// the length is valid exactly when it equals it; otherwise exactly when it is at least the
/// minimum and at most the maximum, and a length above the maximum (and not below the minimum)
/// is reported so, with the bound and the length.
pub proof fn law_length_order_u16(
    r: Result<(), LengthError<u16>>,
    length: u16,
    equal: Option<u16>,
    min: Option<u16>,
    max: Option<u16>,
)
    requires
        is_length_outcome(r, Some(length), equal, min, max),
    ensures
        equal is Some ==> (r is Ok <==> length == equal->0),
        equal is None ==> (r is Ok <==> (min is Some ==> min->0 <= length) && (max is Some
            ==> length <= max->0)),
        equal is None && (min is Some ==> min->0 <= length) && max is Some && max->0 < length
            ==> (r matches Err(LengthError::Max { max: b, length: l, .. }) && b == max->0 && l
            == length),
{
}

/// Range validation of `u32` values follows the order of the integers: a value is valid exactly when
/// it is at least the minimum, at most the maximum, above the exclusive minimum and below the
/// exclusive maximum; a value below the minimum, or else above the maximum, is reported so,
/// with the bound and the value.
pub proof fn law_range_order_u32(
    r: Result<(), RangeError<u32>>,
    value: u32,
    min: Option<u32>,
    max: Option<u32>,
    exclusive_min: Option<u32>,
    exclusive_max: Option<u32>,
)
    requires
        is_range_outcome(r, Some(value), min, max, exclusive_min, exclusive_max),
    ensures
        r is Ok <==> {
            &&& min is Some ==> min->0 <= value
            &&& max is Some ==> value <= max->0
            &&& exclusive_min is Some ==> exclusive_min->0 < value
            &&& exclusive_max is Some ==> value < exclusive_max->0
        },
        min is Some && value < min->0 ==> (r matches Err(
            RangeError::Min { min: b, value: v, .. },
        ) && b == min->0 && v == value),
        (min is Some ==> min->0 <= value) && max is Some && max->0 < value ==> (r matches Err(
            RangeError::Max { max: b, value: v, .. },
        ) && b == max->0 && v == value),
{
}

/// Length validation with `u32` lengths follows the order of the integers: with a required length
/// the length is valid exactly when it equals it; otherwise exactly when it is at least the
/// minimum and at most the maximum, and a length above the maximum (and not below the minimum)
/// is reported so, with the bound and the length.
pub proof fn law_length_order_u32(
    r: Result<(), LengthError<u32>>,
    length: u32,
    equal: Option<u32>,
    min: Option<u32>,
    max: Option<u32>,
)
    requires
        is_length_outcome(r, Some(length), equal, min, max),
    ensures
        equal is Some ==> (r is Ok <==> length == equal->0),
        equal is None ==> (r is Ok <==> (min is Some ==> min->0 <= length) && (max is Some
            ==> length <= max->0)),
        equal is None && (min is Some ==> min->0 <= length) && max is Some && max->0 < length
            ==> (r matches Err(LengthError::Max { max: b, length: l, .. }) && b == max->0 && l
            == length),
{
}

/// Range validation of `u64` values follows the order of the integers: a value is valid exactly when
/// it is at least the minimum, at most the maximum, above the exclusive minimum and below the
/// exclusive maximum; a value below the minimum, or else above the maximum, is reported so,
/// with the bound and the value.
pub proof fn law_range_order_u64(
    r: Result<(), RangeError<u64>>,
    value: u64,
    min: Option<u64>,
    max: Option<u64>,
    exclusive_min: Option<u64>,
    exclusive_max: Option<u64>,
)
    requires
        is_range_outcome(r, Some(value), min, max, exclusive_min, exclusive_max),
    ensures
        r is Ok <==> {
            &&& min is Some ==> min->0 <= value
            &&& max is Some ==> value <= max->0
            &&& exclusive_min is Some ==> exclusive_min->0 < value
            &&& exclusive_max is Some ==> value < exclusive_max->0
        },
        min is Some && value < min->0 ==> (r matches Err(
            RangeError::Min { min: b, value: v, .. },
        ) && b == min->0 && v == value),
        (min is Some ==> min->0 <= value) && max is Some && max->0 < value ==> (r matches Err(
            RangeError::Max { max: b, value: v, .. },
        ) && b == max->0 && v == value),
{
}

/// Length validation with `u64` lengths follows the order of the integers: with a required length
/// the length is valid exactly when it equals it; otherwise exactly when it is at least the
/// minimum and at most the maximum, and a length above the maximum (and not below the minimum)
/// is reported so, with the bound and the length.
pub proof fn law_length_order_u64(
    r: Result<(), LengthError<u64>>,
    length: u64,
    equal: Option<u64>,
    min: Option<u64>,
    max: Option<u64>,
)
    requires
        is_length_outcome(r, Some(length), equal, min, max),
    ensures
        equal is Some ==> (r is Ok <==> length == equal->0),
        equal is None ==> (r is Ok <==> (min is Some ==> min->0 <= length) && (max is Some
            ==> length <= max->0)),
        equal is None && (min is Some ==> min->0 <= length) && max is Some && max->0 < length
            ==> (r matches Err(LengthError::Max { max: b, length: l, .. }) && b == max->0 && l
            == length),
{
}

/// Range validation of `u128` values follows the order of the integers: a value is valid exactly when
/// it is at least the minimum, at most the maximum, above the exclusive minimum and below the
/// exclusive maximum; a value below the minimum, or else above the maximum, is reported so,
/// with the bound and the value.
pub proof fn law_range_order_u128(
    r: Result<(), RangeError<u128>>,
    value: u128,
    min: Option<u128>,
    max: Option<u128>,
    exclusive_min: Option<u128>,
    exclusive_max: Option<u128>,
)
    requires
        is_range_outcome(r, Some(value), min, max, exclusive_min, exclusive_max),
    ensures
        r is Ok <==> {
            &&& min is Some ==> min->0 <= value
            &&& max is Some ==> value <= max->0
            &&& exclusive_min is Some ==> exclusive_min->0 < value
            &&& exclusive_max is Some ==> value < exclusive_max->0
        },
        min is Some && value < min->0 ==> (r matches Err(
            RangeError::Min { min: b, value: v, .. },
        ) && b == min->0 && v == value),
        (min is Some ==> min->0 <= value) && max is Some && max->0 < value ==> (r matches Err(
            RangeError::Max { max: b, value: v, .. },
        ) && b == max->0 && v == value),
{
}

/// Length validation with `u128` lengths follows the order of the integers: with a required length
/// the length is valid exactly when it equals it; otherwise exactly when it is at least the
/// minimum and at most the maximum, and a length above the maximum (and not below the minimum)
/// is reported so, with the bound and the length.
pub proof fn law_length_order_u128(
    r: Result<(), LengthError<u128>>,
    length: u128,
    equal: Option<u128>,
    min: Option<u128>,
    max: Option<u128>,
)
    requires
        is_length_outcome(r, Some(length), equal, min, max),
    ensures
        equal is Some ==> (r is Ok <==> length == equal->0),
        equal is None ==> (r is Ok <==> (min is Some ==> min->0 <= length) && (max is Some
            ==> length <= max->0)),
        equal is None && (min is Some ==> min->0 <= length) && max is Some && max->0 < length
            ==> (r matches Err(LengthError::Max { max: b, length: l, .. }) && b == max->0 && l
            == length),
{
}

/// Range validation of `usize` values follows the order of the integers: a value is valid exactly when
/// it is at least the minimum, at most the maximum, above the exclusive minimum and below the
/// exclusive maximum; a value below the minimum, or else above the maximum, is reported so,
/// with the bound and the value.
pub proof fn law_range_order_usize(
    r: Result<(), RangeError<usize>>,
    value: usize,
    min: Option<usize>,
    max: Option<usize>,
    exclusive_min: Option<usize>,
    exclusive_max: Option<usize>,
)
    requires
        is_range_outcome(r, Some(value), min, max, exclusive_min, exclusive_max),
    ensures
        r is Ok <==> {
            &&& min is Some ==> min->0 <= value
            &&& max is Some ==> value <= max->0
            &&& exclusive_min is Some ==> exclusive_min->0 < value
            &&& exclusive_max is Some ==> value < exclusive_max->0
        },
        min is Some && value < min->0 ==> (r matches Err(
            RangeError::Min { min: b, value: v, .. },
        ) && b == min->0 && v == value),
        (min is Some ==> min->0 <= value) && max is Some && max->0 < value ==> (r matches Err(
            RangeError::Max { max: b, value: v, .. },
        ) && b == max->0 && v == value),
{
}

/// Length validation with `usize` lengths follows the order of the integers: with a required length
/// the length is valid exactly when it equals it; otherwise exactly when it is at least the
/// minimum and at most the maximum, and a length above the maximum (and not below the minimum)
/// is reported so, with the bound and the length.
pub proof fn law_length_order_usize(
    r: Result<(), LengthError<usize>>,
    length: usize,
    equal: Option<usize>,
    min: Option<usize>,
    max: Option<usize>,
)
    requires
        is_length_outcome(r, Some(length), equal, min, max),
    ensures
        equal is Some ==> (r is Ok <==> length == equal->0),
        equal is None ==> (r is Ok <==> (min is Some ==> min->0 <= length) && (max is Some
            ==> length <= max->0)),
        equal is None && (min is Some ==> min->0 <= length) && max is Some && max->0 < length
            ==> (r matches Err(LengthError::Max { max: b, length: l, .. }) && b == max->0 && l
            == length),
{
}

/// Range validation of `i8` values follows the order of the integers: a value is valid exactly when
/// it is at least the minimum, at most the maximum, above the exclusive minimum and below the
/// exclusive maximum; a value below the minimum, or else above the maximum, is reported so,
/// with the bound and the value.
pub proof fn law_range_order_i8(
    r: Result<(), RangeError<i8>>,
    value: i8,
    min: Option<i8>,
    max: Option<i8>,
    exclusive_min: Option<i8>,
    exclusive_max: Option<i8>,
)
    requires
        is_range_outcome(r, Some(value), min, max, exclusive_min, exclusive_max),
    ensures
        r is Ok <==> {
            &&& min is Some ==> min->0 <= value
            &&& max is Some ==> value <= max->0
            &&& exclusive_min is Some ==> exclusive_min->0 < value
            &&& exclusive_max is Some ==> value < exclusive_max->0
        },
        min is Some && value < min->0 ==> (r matches Err(
            RangeError::Min { min: b, value: v, .. },
        ) && b == min->0 && v == value),
        (min is Some ==> min->0 <= value) && max is Some && max->0 < value ==> (r matches Err(
            RangeError::Max { max: b, value: v, .. },
        ) && b == max->0 && v == value),
{
}

/// Length validation with `i8` lengths follows the order of the integers: with a required length
/// the length is valid exactly when it equals it; otherwise exactly when it is at least the
/// minimum and at most the maximum, and a length above the maximum (and not below the minimum)
/// is reported so, with the bound and the length.
pub proof fn law_length_order_i8(
    r: Result<(), LengthError<i8>>,
    length: i8,
    equal: Option<i8>,
    min: Option<i8>,
    max: Option<i8>,
)
    requires
        is_length_outcome(r, Some(length), equal, min, max),
    ensures
        equal is Some ==> (r is Ok <==> length == equal->0),
        equal is None ==> (r is Ok <==> (min is Some ==> min->0 <= length) && (max is Some
            ==> length <= max->0)),
        equal is None && (min is Some ==> min->0 <= length) && max is Some && max->0 < length
            ==> (r matches Err(LengthError::Max { max: b, length: l, .. }) && b == max->0 && l
            == length),
{
}

/// Range validation of `i16` values follows the order of the integers: a value is valid exactly when
/// it is at least the minimum, at most the maximum, above the exclusive minimum and below the
/// exclusive maximum; a value below the minimum, or else above the maximum, is reported so,
/// with the bound and the value.
pub proof fn law_range_order_i16(
    r: Result<(), RangeError<i16>>,
    value: i16,
    min: Option<i16>,
    max: Option<i16>,
    exclusive_min: Option<i16>,
    exclusive_max: Option<i16>,
)
    requires
        is_range_outcome(r, Some(value), min, max, exclusive_min, exclusive_max),
    ensures
        r is Ok <==> {
            &&& min is Some ==> min->0 <= value
            &&& max is Some ==> value <= max->0
            &&& exclusive_min is Some ==> exclusive_min->0 < value
            &&& exclusive_max is Some ==> value < exclusive_max->0
        },
        min is Some && value < min->0 ==> (r matches Err(
            RangeError::Min { min: b, value: v, .. },
        ) && b == min->0 && v == value),
        (min is Some ==> min->0 <= value) && max is Some && max->0 < value ==> (r matches Err(
            RangeError::Max { max: b, value: v, .. },
        ) && b == max->0 && v == value),
{
}

/// Length validation with `i16` lengths follows the order of the integers: with a required length
/// the length is valid exactly when it equals it; otherwise exactly when it is at least the
/// minimum and at most the maximum, and a length above the maximum (and not below the minimum)
/// is reported so, with the bound and the length.
pub proof fn law_length_order_i16(
    r: Result<(), LengthError<i16>>,
    length: i16,
    equal: Option<i16>,
    min: Option<i16>,
    max: Option<i16>,
)
    requires
        is_length_outcome(r, Some(length), equal, min, max),
    ensures
        equal is Some ==> (r is Ok <==> length == equal->0),
        equal is None ==> (r is Ok <==> (min is Some ==> min->0 <= length) && (max is Some
            ==> length <= max->0)),
        equal is None && (min is Some ==> min->0 <= length) && max is Some && max->0 < length
            ==> (r matches Err(LengthError::Max { max: b, length: l, .. }) && b == max->0 && l
            == length),
{
}

/// Range validation of `i32` values follows the order of the integers: a value is valid exactly when
/// it is at least the minimum, at most the maximum, above the exclusive minimum and below the
/// exclusive maximum; a value below the minimum, or else above the maximum, is reported so,
/// with the bound and the value.
pub proof fn law_range_order_i32(
    r: Result<(), RangeError<i32>>,
    value: i32,
    min: Option<i32>,
    max: Option<i32>,
    exclusive_min: Option<i32>,
    exclusive_max: Option<i32>,
)
    requires
        is_range_outcome(r, Some(value), min, max, exclusive_min, exclusive_max),
    ensures
        r is Ok <==> {
            &&& min is Some ==> min->0 <= value
            &&& max is Some ==> value <= max->0
            &&& exclusive_min is Some ==> exclusive_min->0 < value
            &&& exclusive_max is Some ==> value < exclusive_max->0
        },
        min is Some && value < min->0 ==> (r matches Err(
            RangeError::Min { min: b, value: v, .. },
        ) && b == min->0 && v == value),
        (min is Some ==> min->0 <= value) && max is Some && max->0 < value ==> (r matches Err(
            RangeError::Max { max: b, value: v, .. },
        ) && b == max->0 && v == value),
{
}

/// Length validation with `i32` lengths follows the order of the integers: with a required length
/// the length is valid exactly when it equals it; otherwise exactly when it is at least the
/// minimum and at most the maximum, and a length above the maximum (and not below the minimum)
/// is reported so, with the bound and the length.
pub proof fn law_length_order_i32(
    r: Result<(), LengthError<i32>>,
    length: i32,
    equal: Option<i32>,
    min: Option<i32>,
    max: Option<i32>,
)
    requires
        is_length_outcome(r, Some(length), equal, min, max),
    ensures
        equal is Some ==> (r is Ok <==> length == equal->0),
        equal is None ==> (r is Ok <==> (min is Some ==> min->0 <= length) && (max is Some
            ==> length <= max->0)),
        equal is None && (min is Some ==> min->0 <= length) && max is Some && max->0 < length
            ==> (r matches Err(LengthError::Max { max: b, length: l, .. }) && b == max->0 && l
            == length),
{
}

/// Range validation of `i64` values follows the order of the integers: a value is valid exactly when
/// it is at least the minimum, at most the maximum, above the exclusive minimum and below the
/// exclusive maximum; a value below the minimum, or else above the maximum, is reported so,
/// with the bound and the value.
pub proof fn law_range_order_i64(
    r: Result<(), RangeError<i64>>,
    value: i64,
    min: Option<i64>,
    max: Option<i64>,
    exclusive_min: Option<i64>,
    exclusive_max: Option<i64>,
)
    requires
        is_range_outcome(r, Some(value), min, max, exclusive_min, exclusive_max),
    ensures
        r is Ok <==> {
            &&& min is Some ==> min->0 <= value
            &&& max is Some ==> value <= max->0
            &&& exclusive_min is Some ==> exclusive_min->0 < value
            &&& exclusive_max is Some ==> value < exclusive_max->0
        },
        min is Some && value < min->0 ==> (r matches Err(
            RangeError::Min { min: b, value: v, .. },
        ) && b == min->0 && v == value),
        (min is Some ==> min->0 <= value) && max is Some && max->0 < value ==> (r matches Err(
            RangeError::Max { max: b, value: v, .. },
        ) && b == max->0 && v == value),
{
}

/// Length validation with `i64` lengths follows the order of the integers: with a required length
/// the length is valid exactly when it equals it; otherwise exactly when it is at least the
/// minimum and at most the maximum, and a length above the maximum (and not below the minimum)
/// is reported so, with the bound and the length.
pub proof fn law_length_order_i64(
    r: Result<(), LengthError<i64>>,
    length: i64,
    equal: Option<i64>,
    min: Option<i64>,
    max: Option<i64>,
)
    requires
        is_length_outcome(r, Some(length), equal, min, max),
    ensures
        equal is Some ==> (r is Ok <==> length == equal->0),
        equal is None ==> (r is Ok <==> (min is Some ==> min->0 <= length) && (max is Some
            ==> length <= max->0)),
        equal is None && (min is Some ==> min->0 <= length) && max is Some && max->0 < length
            ==> (r matches Err(LengthError::Max { max: b, length: l, .. }) && b == max->0 && l
            == length),
{
}

/// Range validation of `i128` values follows the order of the integers: a value is valid exactly when
/// it is at least the minimum, at most the maximum, above the exclusive minimum and below the
/// exclusive maximum; a value below the minimum, or else above the maximum, is reported so,
/// with the bound and the value.
pub proof fn law_range_order_i128(
    r: Result<(), RangeError<i128>>,
    value: i128,
    min: Option<i128>,
    max: Option<i128>,
    exclusive_min: Option<i128>,
    exclusive_max: Option<i128>,
)
    requires
        is_range_outcome(r, Some(value), min, max, exclusive_min, exclusive_max),
    ensures
        r is Ok <==> {
            &&& min is Some ==> min->0 <= value
            &&& max is Some ==> value <= max->0
            &&& exclusive_min is Some ==> exclusive_min->0 < value
            &&& exclusive_max is Some ==> value < exclusive_max->0
        },
        min is Some && value < min->0 ==> (r matches Err(
            RangeError::Min { min: b, value: v, .. },
        ) && b == min->0 && v == value),
        (min is Some ==> min->0 <= value) && max is Some && max->0 < value ==> (r matches Err(
            RangeError::Max { max: b, value: v, .. },
        ) && b == max->0 && v == value),
{
}

/// Length validation with `i128` lengths follows the order of the integers: with a required length
/// the length is valid exactly when it equals it; otherwise exactly when it is at least the
/// minimum and at most the maximum, and a length above the maximum (and not below the minimum)
/// is reported so, with the bound and the length.
pub proof fn law_length_order_i128(
    r: Result<(), LengthError<i128>>,
    length: i128,
    equal: Option<i128>,
    min: Option<i128>,
    max: Option<i128>,
)
    requires
        is_length_outcome(r, Some(length), equal, min, max),
    ensures
        equal is Some ==> (r is Ok <==> length == equal->0),
        equal is None ==> (r is Ok <==> (min is Some ==> min->0 <= length) && (max is Some
            ==> length <= max->0)),
        equal is None && (min is Some ==> min->0 <= length) && max is Some && max->0 < length
            ==> (r matches Err(LengthError::Max { max: b, length: l, .. }) && b == max->0 && l
            == length),
{
}

/// Range validation of `isize` values follows the order of the integers: a value is valid exactly when
/// it is at least the minimum, at most the maximum, above the exclusive minimum and below the
/// exclusive maximum; a value below the minimum, or else above the maximum, is reported so,
/// with the bound and the value.
pub proof fn law_range_order_isize(
    r: Result<(), RangeError<isize>>,
    value: isize,
    min: Option<isize>,
    max: Option<isize>,
    exclusive_min: Option<isize>,
    exclusive_max: Option<isize>,
)
    requires
        is_range_outcome(r, Some(value), min, max, exclusive_min, exclusive_max),
    ensures
        r is Ok <==> {
            &&& min is Some ==> min->0 <= value
            &&& max is Some ==> value <= max->0
            &&& exclusive_min is Some ==> exclusive_min->0 < value
            &&& exclusive_max is Some ==> value < exclusive_max->0
        },
        min is Some && value < min->0 ==> (r matches Err(
            RangeError::Min { min: b, value: v, .. },
        ) && b == min->0 && v == value),
        (min is Some ==> min->0 <= value) && max is Some && max->0 < value ==> (r matches Err(
            RangeError::Max { max: b, value: v, .. },
        ) && b == max->0 && v == value),
{
}

/// Length validation with `isize` lengths follows the order of the integers: with a required length
/// the length is valid exactly when it equals it; otherwise exactly when it is at least the
/// minimum and at most the maximum, and a length above the maximum (and not below the minimum)
/// is reported so, with the bound and the length.
pub proof fn law_length_order_isize(
    r: Result<(), LengthError<isize>>,
    length: isize,
    equal: Option<isize>,
    min: Option<isize>,
    max: Option<isize>,
)
    requires
        is_length_outcome(r, Some(length), equal, min, max),
    ensures
        equal is Some ==> (r is Ok <==> length == equal->0),
        equal is None ==> (r is Ok <==> (min is Some ==> min->0 <= length) && (max is Some
            ==> length <= max->0)),
        equal is None && (min is Some ==> min->0 <= length) && max is Some && max->0 < length
            ==> (r matches Err(LengthError::Max { max: b, length: l, .. }) && b == max->0 && l
            == length),
{
}

/// Range validation of `char` values follows the order of Unicode scalar values: a value is valid exactly when
/// it is at least the minimum, at most the maximum, above the exclusive minimum and below the
/// exclusive maximum; a value below the minimum, or else above the maximum, is reported so,
/// with the bound and the value.
pub proof fn law_range_order_char(
    r: Result<(), RangeError<char>>,
    value: char,
    min: Option<char>,
    max: Option<char>,
    exclusive_min: Option<char>,
    exclusive_max: Option<char>,
)
    requires
        is_range_outcome(r, Some(value), min, max, exclusive_min, exclusive_max),
    ensures
        r is Ok <==> {
            &&& min is Some ==> min->0 <= value
            &&& max is Some ==> value <= max->0
            &&& exclusive_min is Some ==> exclusive_min->0 < value
            &&& exclusive_max is Some ==> value < exclusive_max->0
        },
        min is Some && value < min->0 ==> (r matches Err(
            RangeError::Min { min: b, value: v, .. },
        ) && b == min->0 && v == value),
        (min is Some ==> min->0 <= value) && max is Some && max->0 < value ==> (r matches Err(
            RangeError::Max { max: b, value: v, .. },
        ) && b == max->0 && v == value),
{
}

/// Length validation with `char` lengths follows the order of Unicode scalar values: with a required length
/// the length is valid exactly when it equals it; otherwise exactly when it is at least the
/// minimum and at most the maximum, and a length above the maximum (and not below the minimum)
/// is reported so, with the bound and the length.
pub proof fn law_length_order_char(
    r: Result<(), LengthError<char>>,
    length: char,
    equal: Option<char>,
    min: Option<char>,
    max: Option<char>,
)
    requires
        is_length_outcome(r, Some(length), equal, min, max),
    ensures
        equal is Some ==> (r is Ok <==> length == equal->0),
        equal is None ==> (r is Ok <==> (min is Some ==> min->0 <= length) && (max is Some
            ==> length <= max->0)),
        equal is None && (min is Some ==> min->0 <= length) && max is Some && max->0 < length
            ==> (r matches Err(LengthError::Max { max: b, length: l, .. }) && b == max->0 && l
            == length),
{
}

/// Range validation of `bool` values follows the order `false < true`.
pub proof fn law_range_order_bool(
    r: Result<(), RangeError<bool>>,
    value: bool,
    min: Option<bool>,
    max: Option<bool>,
    exclusive_min: Option<bool>,
    exclusive_max: Option<bool>,
)
    requires
        is_range_outcome(r, Some(value), min, max, exclusive_min, exclusive_max),
    ensures
        r is Ok <==> {
            &&& min matches Some(b) ==> (b ==> value)
            &&& max matches Some(b) ==> (value ==> b)
            &&& exclusive_min matches Some(b) ==> !b && value
            &&& exclusive_max matches Some(b) ==> !value && b
        },
{
}

/// The order of texts is the lexicographic order by character: `a` comes before `b` exactly
/// when `a` is a proper prefix of `b`, or at the first position where they differ the
/// character of `a` has the smaller code point.
pub proof fn law_text_order_lexicographic(a: Seq<char>, b: Seq<char>)
    ensures
        text_less(a, b) <==> {
            ||| a.len() < b.len() && b.take(a.len() as int) == a
            ||| exists|i: int|
                0 <= i < a.len() && i < b.len() && #[trigger] a.take(i) == b.take(i) && (a[i] as int)
                    < (b[i] as int)
        },
    decreases a.len(),
{
    if a.len() == 0 {
        if b.len() > 0 {
            assert(b.take(0) =~= a);
        }
    } else if b.len() == 0 {
    } else if a[0] != b[0] {
        if (a[0] as int) < (b[0] as int) {
            assert(a.take(0) =~= b.take(0));
        } else {
            assert(!(a.len() < b.len() && b.take(a.len() as int) == a)) by {
                if a.len() < b.len() && b.take(a.len() as int) == a {
                    assert(b.take(a.len() as int)[0] == a[0]);
                }
            }
            assert forall|i: int|
                0 <= i < a.len() && i < b.len() && #[trigger] a.take(i) == b.take(i) implies !((a[i] as int)
                    < (b[i] as int)) by {
                if i > 0 {
                    assert(a.take(i)[0] == b.take(i)[0]);
                }
            }
        }
    } else {
        let a1 = a.drop_first();
        let b1 = b.drop_first();
        law_text_order_lexicographic(a1, b1);
        if a1.len() < b1.len() && b1.take(a1.len() as int) == a1 {
            assert forall|k: int| 0 <= k < a.len() implies #[trigger] b.take(a.len() as int)[k]
                == a[k] by {
                if k > 0 {
                    assert(b1.take(a1.len() as int)[k - 1] == a1[k - 1]);
                }
            }
            assert(b.take(a.len() as int) =~= a);
        }
        if a.len() < b.len() && b.take(a.len() as int) == a {
            assert(b1.take(a1.len() as int) =~= a1);
        }
        assert forall|i: int|
            0 <= i < a1.len() && i < b1.len() && #[trigger] a1.take(i) == b1.take(i) && (a1[i] as int)
                < (b1[i] as int) implies exists|j: int|
            0 <= j < a.len() && j < b.len() && #[trigger] a.take(j) == b.take(j) && (a[j] as int)
                < (b[j] as int) by {
            assert(a.take(i + 1) =~= seq![a[0]] + a1.take(i));
            assert(b.take(i + 1) =~= seq![b[0]] + b1.take(i));
            assert(a[i + 1] == a1[i]);
        }
        assert forall|j: int|
            0 <= j < a.len() && j < b.len() && #[trigger] a.take(j) == b.take(j) && (a[j] as int)
                < (b[j] as int) implies exists|i: int|
            0 <= i < a1.len() && i < b1.len() && #[trigger] a1.take(i) == b1.take(i) && (a1[i] as int)
                < (b1[i] as int) by {
            assert(j > 0);
            assert(a1.take(j - 1) =~= a.take(j).drop_first());
            assert(b1.take(j - 1) =~= b.take(j).drop_first());
            assert(a1[j - 1] == a[j]);
        }
    }
}

/// Range validation of texts follows the order of texts by character, and equality of their
/// characters.
pub proof fn law_range_order_str<'a>(
    r: Result<(), RangeError<&'a str>>,
    value: &'a str,
    min: Option<&'a str>,
    max: Option<&'a str>,
    exclusive_min: Option<&'a str>,
    exclusive_max: Option<&'a str>,
)
    requires
        is_range_outcome(r, Some(value), min, max, exclusive_min, exclusive_max),
    ensures
        r is Ok <==> {
            &&& min is Some ==> !text_less(value@, min->0@)
            &&& max is Some ==> !text_less(max->0@, value@)
            &&& exclusive_min is Some ==> text_less(exclusive_min->0@, value@)
            &&& exclusive_max is Some ==> text_less(value@, exclusive_max->0@)
        },
{
    crate::laws::law_text_order_total(value@, value@);
    if let Some(b) = exclusive_min {
        crate::laws::law_text_order_total(value@, b@);
    }
    if let Some(b) = exclusive_max {
        crate::laws::law_text_order_total(value@, b@);
    }
}

/// Range validation of owned texts follows the order of texts by character, and equality of
/// their characters.
pub proof fn law_range_order_string(
    r: Result<(), RangeError<String>>,
    value: String,
    min: Option<String>,
    max: Option<String>,
    exclusive_min: Option<String>,
    exclusive_max: Option<String>,
)
    requires
        is_range_outcome(r, Some(value), min, max, exclusive_min, exclusive_max),
    ensures
        r is Ok <==> {
            &&& min is Some ==> !text_less(value@, min->0@)
            &&& max is Some ==> !text_less(max->0@, value@)
            &&& exclusive_min is Some ==> text_less(exclusive_min->0@, value@)
            &&& exclusive_max is Some ==> text_less(value@, exclusive_max->0@)
        },
{
    if let Some(b) = exclusive_min {
        crate::laws::law_text_order_total(value@, b@);
    }
    if let Some(b) = exclusive_max {
        crate::laws::law_text_order_total(value@, b@);
    }
}

/// The number that a text of decimal digits denotes, read from the left.
pub open spec fn digits_value(digits: Seq<char>) -> int
    decreases digits.len(),
{
    if digits.len() == 0 {
        0
    } else {
        digits_value(digits.drop_last()) * 10 + ((digits.last() as int) - ('0' as int))
    }
}

/// The text of a natural number in messages is its decimal numeral: one or more digits `0` to
/// `9`, which read back give the number, with no leading zero but for the number zero itself.
pub proof fn law_decimal_numeral(n: nat)
    ensures
        decimal(n).len() > 0,
        forall|i: int| 0 <= i < decimal(n).len() ==> '0' <= #[trigger] decimal(n)[i] <= '9',
        digits_value(decimal(n)) == n,
        decimal(n)[0] == '0' ==> n == 0,
    decreases n,
{
    let r = (n % 10) as nat;
    assert(('0' as int) == 48);
    assert(((digit_char(r)) as int) == 48 + r);
    if n < 10 {
        let d = decimal(n);
        assert(d.drop_last() =~= Seq::<char>::empty());
        assert(d.last() == digit_char(n));
        assert(digits_value(d) == digits_value(d.drop_last()) * 10 + ((d.last() as int) - ('0' as int)));
        assert(digits_value(d) == n);
    } else {
        let q = (n / 10) as nat;
        law_decimal_numeral(q);
        let d = decimal(n);
        assert(d.drop_last() =~= decimal(q));
        assert(d.last() == digit_char(r));
        assert(n == q * 10 + r);
        assert(digits_value(d) == digits_value(d.drop_last()) * 10 + ((d.last() as int) - ('0' as int)));
        assert(digits_value(d) == n);
        assert(d[0] == decimal(q)[0]);
        assert forall|i: int| 0 <= i < d.len() implies '0' <= #[trigger] d[i] <= '9' by {
            if i < d.len() - 1 {
                assert(d[i] == decimal(q)[i]);
            }
        }
    }
}

/// The text of an integer in messages is its decimal numeral, with a leading `-` exactly when
/// the integer is negative.
pub proof fn law_signed_decimal_numeral(n: int)
    ensures
        signed_decimal(n).len() > 0,
        (signed_decimal(n)[0] == '-') <==> n < 0,
        n < 0 ==> digits_value(signed_decimal(n).drop_first()) == -n,
        n >= 0 ==> digits_value(signed_decimal(n)) == n,
{
    if n < 0 {
        law_decimal_numeral((-n) as nat);
        assert(signed_decimal(n).drop_first() =~= decimal((-n) as nat));
    } else {
        law_decimal_numeral(n as nat);
    }
}

/// In messages a `u8` is written as its decimal numeral: digits that read back give the value,
/// with no leading zero.
pub proof fn law_text_numeral_u8(v: u8)
    ensures
        v.spec_text().len() > 0,
        forall|i: int| 0 <= i < v.spec_text().len() ==> '0' <= #[trigger] v.spec_text()[i] <= '9',
        digits_value(v.spec_text()) == v,
        v.spec_text()[0] == '0' ==> v == 0,
{
    law_decimal_numeral(v as nat);
}

/// In messages a `u16` is written as its decimal numeral: digits that read back give the value,
/// with no leading zero.
pub proof fn law_text_numeral_u16(v: u16)
    ensures
        v.spec_text().len() > 0,
        forall|i: int| 0 <= i < v.spec_text().len() ==> '0' <= #[trigger] v.spec_text()[i] <= '9',
        digits_value(v.spec_text()) == v,
        v.spec_text()[0] == '0' ==> v == 0,
{
    law_decimal_numeral(v as nat);
}

/// In messages a `u32` is written as its decimal numeral: digits that read back give the value,
/// with no leading zero.
pub proof fn law_text_numeral_u32(v: u32)
    ensures
        v.spec_text().len() > 0,
        forall|i: int| 0 <= i < v.spec_text().len() ==> '0' <= #[trigger] v.spec_text()[i] <= '9',
        digits_value(v.spec_text()) == v,
        v.spec_text()[0] == '0' ==> v == 0,
{
    law_decimal_numeral(v as nat);
}

/// In messages a `u64` is written as its decimal numeral: digits that read back give the value,
/// with no leading zero.
pub proof fn law_text_numeral_u64(v: u64)
    ensures
        v.spec_text().len() > 0,
        forall|i: int| 0 <= i < v.spec_text().len() ==> '0' <= #[trigger] v.spec_text()[i] <= '9',
        digits_value(v.spec_text()) == v,
        v.spec_text()[0] == '0' ==> v == 0,
{
    law_decimal_numeral(v as nat);
}

/// In messages a `u128` is written as its decimal numeral: digits that read back give the value,
/// with no leading zero.
pub proof fn law_text_numeral_u128(v: u128)
    ensures
        v.spec_text().len() > 0,
        forall|i: int| 0 <= i < v.spec_text().len() ==> '0' <= #[trigger] v.spec_text()[i] <= '9',
        digits_value(v.spec_text()) == v,
        v.spec_text()[0] == '0' ==> v == 0,
{
    law_decimal_numeral(v as nat);
}

/// In messages a `usize` is written as its decimal numeral: digits that read back give the value,
/// with no leading zero.
pub proof fn law_text_numeral_usize(v: usize)
    ensures
        v.spec_text().len() > 0,
        forall|i: int| 0 <= i < v.spec_text().len() ==> '0' <= #[trigger] v.spec_text()[i] <= '9',
        digits_value(v.spec_text()) == v,
        v.spec_text()[0] == '0' ==> v == 0,
{
    law_decimal_numeral(v as nat);
}

/// In messages an `i8` is written as its decimal numeral, with a leading `-` exactly when it
/// is negative: the digits read back give its magnitude.
pub proof fn law_text_numeral_i8(v: i8)
    ensures
        v.spec_text().len() > 0,
        (v.spec_text()[0] == '-') <==> v < 0,
        v < 0 ==> digits_value(v.spec_text().drop_first()) == -v,
        v >= 0 ==> digits_value(v.spec_text()) == v,
{
    law_signed_decimal_numeral(v as int);
}

/// In messages an `i16` is written as its decimal numeral, with a leading `-` exactly when it
/// is negative: the digits read back give its magnitude.
pub proof fn law_text_numeral_i16(v: i16)
    ensures
        v.spec_text().len() > 0,
        (v.spec_text()[0] == '-') <==> v < 0,
        v < 0 ==> digits_value(v.spec_text().drop_first()) == -v,
        v >= 0 ==> digits_value(v.spec_text()) == v,
{
    law_signed_decimal_numeral(v as int);
}

/// In messages an `i32` is written as its decimal numeral, with a leading `-` exactly when it
/// is negative: the digits read back give its magnitude.
pub proof fn law_text_numeral_i32(v: i32)
    ensures
        v.spec_text().len() > 0,
        (v.spec_text()[0] == '-') <==> v < 0,
        v < 0 ==> digits_value(v.spec_text().drop_first()) == -v,
        v >= 0 ==> digits_value(v.spec_text()) == v,
{
    law_signed_decimal_numeral(v as int);
}

/// In messages an `i64` is written as its decimal numeral, with a leading `-` exactly when it
/// is negative: the digits read back give its magnitude.
pub proof fn law_text_numeral_i64(v: i64)
    ensures
        v.spec_text().len() > 0,
        (v.spec_text()[0] == '-') <==> v < 0,
        v < 0 ==> digits_value(v.spec_text().drop_first()) == -v,
        v >= 0 ==> digits_value(v.spec_text()) == v,
{
    law_signed_decimal_numeral(v as int);
}

/// In messages an `i128` is written as its decimal numeral, with a leading `-` exactly when it
/// is negative: the digits read back give its magnitude.
pub proof fn law_text_numeral_i128(v: i128)
    ensures
        v.spec_text().len() > 0,
        (v.spec_text()[0] == '-') <==> v < 0,
        v < 0 ==> digits_value(v.spec_text().drop_first()) == -v,
        v >= 0 ==> digits_value(v.spec_text()) == v,
{
    law_signed_decimal_numeral(v as int);
}

/// In messages an `isize` is written as its decimal numeral, with a leading `-` exactly when it
/// is negative: the digits read back give its magnitude.
pub proof fn law_text_numeral_isize(v: isize)
    ensures
        v.spec_text().len() > 0,
        (v.spec_text()[0] == '-') <==> v < 0,
        v < 0 ==> digits_value(v.spec_text().drop_first()) == -v,
        v >= 0 ==> digits_value(v.spec_text()) == v,
{
    law_signed_decimal_numeral(v as int);
}

} // verus!
