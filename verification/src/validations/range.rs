//! Range validation.

use vstd::prelude::*;

use crate::bound::BoundValue;
use crate::error_code::RangeErrorCode;
use crate::std_items::{ref_contents, ref_mut_contents};
use crate::text::push_str;

verus! {

/// Range validation error.
#[derive(Debug, PartialEq, Eq)]
pub enum RangeError<T> {
    /// Value is less than the minimum value.
    Min {
        /// The minimum value.
        min: T,
        /// The actual value.
        value: T,
        /// The error code.
        code: RangeErrorCode,
        /// A human-readable error message.
        message: String,
    },
    /// Value is more than the maximum value.
    Max {
        /// The maximum value.
        max: T,
        /// The actual value.
        value: T,
        /// The error code.
        code: RangeErrorCode,
        /// A human-readable error message.
        message: String,
    },
    /// Value is less than or equal to the exclusive minimum value.
    ExclusiveMin {
        /// The exclusive minimum value.
        exclusive_min: T,
        /// The actual value.
        value: T,
        /// The error code.
        code: RangeErrorCode,
        /// A human-readable error message.
        message: String,
    },
    /// Value is greater than or equal to the exclusive maximum value.
    ExclusiveMax {
        /// The exclusive maximum value.
        exclusive_max: T,
        /// The actual value.
        value: T,
        /// The error code.
        code: RangeErrorCode,
        /// A human-readable error message.
        message: String,
    },
}

/// The bound that a value breaks.
#[derive(Debug, PartialEq, Eq)]
pub enum RangeBound<T> {
    /// The minimum, which the value is below.
    Min(T),
    /// The maximum, which the value is above.
    Max(T),
    /// The exclusive minimum, which the value does not exceed.
    ExclusiveMin(T),
    /// The exclusive maximum, which the value does not stay below.
    ExclusiveMax(T),
}

/// The first bound that `value` breaks, checked in the order minimum, maximum, exclusive
/// minimum, exclusive maximum.
pub open spec fn range_violation<T: BoundValue>(
    value: T,
    min: Option<T>,
    max: Option<T>,
    exclusive_min: Option<T>,
    exclusive_max: Option<T>,
) -> Option<RangeBound<T>> {
    if min is Some && value.spec_less(&min->0) {
        Some(RangeBound::Min(min->0))
    } else if max is Some && max->0.spec_less(&value) {
        Some(RangeBound::Max(max->0))
    } else if exclusive_min is Some && (value.spec_less(&exclusive_min->0) || value.spec_same(
        &exclusive_min->0,
    )) {
        Some(RangeBound::ExclusiveMin(exclusive_min->0))
    } else if exclusive_max is Some && (exclusive_max->0.spec_less(&value) || value.spec_same(
        &exclusive_max->0,
    )) {
        Some(RangeBound::ExclusiveMax(exclusive_max->0))
    } else {
        None
    }
}

/// The message of the error for a broken bound.
pub open spec fn range_message<T: BoundValue>(bound: RangeBound<T>, value: T) -> Seq<char> {
    match bound {
        RangeBound::Min(b) => "value "@ + value.spec_text() + " is less than minimum value "@
            + b.spec_text(),
        RangeBound::Max(b) => "value "@ + value.spec_text() + " is greater than maximum value "@
            + b.spec_text(),
        RangeBound::ExclusiveMin(b) => "value "@ + value.spec_text()
            + " is less than or equal to exclusive minimum value "@ + b.spec_text(),
        RangeBound::ExclusiveMax(b) => "value "@ + value.spec_text()
            + " is greater than or equal to exclusive maximum value "@ + b.spec_text(),
    }
}

/// Whether `e` is the error that reports `value` breaking `bound`.
pub open spec fn is_range_error<T: BoundValue>(
    e: RangeError<T>,
    bound: RangeBound<T>,
    value: T,
) -> bool {
    match (e, bound) {
        (RangeError::Min { min, value: v, code: _, message }, RangeBound::Min(b)) => {
            &&& min == b
            &&& v == value
            &&& message@ == range_message(bound, value)
        },
        (RangeError::Max { max, value: v, code: _, message }, RangeBound::Max(b)) => {
            &&& max == b
            &&& v == value
            &&& message@ == range_message(bound, value)
        },
        (
            RangeError::ExclusiveMin { exclusive_min, value: v, code: _, message },
            RangeBound::ExclusiveMin(b),
        ) => {
            &&& exclusive_min == b
            &&& v == value
            &&& message@ == range_message(bound, value)
        },
        (
            RangeError::ExclusiveMax { exclusive_max, value: v, code: _, message },
            RangeBound::ExclusiveMax(b),
        ) => {
            &&& exclusive_max == b
            &&& v == value
            &&& message@ == range_message(bound, value)
        },
        _ => false,
    }
}

/// Whether `r` is the outcome of validating the (optional) `value` against the bounds.
pub open spec fn is_range_outcome<T: BoundValue>(
    r: Result<(), RangeError<T>>,
    value: Option<T>,
    min: Option<T>,
    max: Option<T>,
    exclusive_min: Option<T>,
    exclusive_max: Option<T>,
) -> bool {
    match value {
        None => r is Ok,
        Some(v) => match range_violation(v, min, max, exclusive_min, exclusive_max) {
            None => r is Ok,
            Some(b) => r matches Err(e) && is_range_error(e, b, v),
        },
    }
}

fn range_error_message<T: BoundValue>(value: &T, bound: &T, text: &str) -> (r: String)
    ensures
        r@ == "value "@ + value.spec_text() + text@ + bound.spec_text(),
{
    let mut message = String::new();
    push_str(&mut message, "value ");
    value.push_text(&mut message);
    push_str(&mut message, text);
    bound.push_text(&mut message);
    message
}

/// Validates an optional value against an optional minimum, maximum, exclusive minimum and
/// exclusive maximum.
///
/// An absent value is valid.
pub fn validate_range_value<T: BoundValue>(
    value: Option<T>,
    min: Option<T>,
    max: Option<T>,
    exclusive_min: Option<T>,
    exclusive_max: Option<T>,
) -> (r: Result<(), RangeError<T>>)
    ensures
        is_range_outcome(r, value, min, max, exclusive_min, exclusive_max),
{
    let value = match value {
        None => return Ok(()),
        Some(value) => value,
    };
    if let Some(min) = min {
        if value.less_than(&min) {
            let message = range_error_message(&value, &min, " is less than minimum value ");
            return Err(RangeError::Min { min, value, code: RangeErrorCode, message });
        }
    }
    if let Some(max) = max {
        if max.less_than(&value) {
            let message = range_error_message(&value, &max, " is greater than maximum value ");
            return Err(RangeError::Max { max, value, code: RangeErrorCode, message });
        }
    }
    if let Some(exclusive_min) = exclusive_min {
        if value.less_than(&exclusive_min) || value.same_as(&exclusive_min) {
            let message = range_error_message(
                &value,
                &exclusive_min,
                " is less than or equal to exclusive minimum value ",
            );
            return Err(
                RangeError::ExclusiveMin { exclusive_min, value, code: RangeErrorCode, message },
            );
        }
    }
    if let Some(exclusive_max) = exclusive_max {
        if exclusive_max.less_than(&value) || value.same_as(&exclusive_max) {
            let message = range_error_message(
                &value,
                &exclusive_max,
                " is greater than or equal to exclusive maximum value ",
            );
            return Err(
                RangeError::ExclusiveMax { exclusive_max, value, code: RangeErrorCode, message },
            );
        }
    }
    Ok(())
}

/// Validate a range.
pub trait ValidateRange<T: BoundValue> {
    /// Whether `v` is what [`ValidateRange::range_value`] gives for this value.
    spec fn has_range_value(&self, v: Option<T>) -> bool;

    /// The value.
    fn range_value(&self) -> (r: Option<T>)
        ensures
            self.has_range_value(r),
    ;

    /// Validate range.
    ///
    /// The outcome is that of [`validate_range_value`] on what [`ValidateRange::range_value`]
    /// returns.
    fn validate_range(
        &self,
        min: Option<T>,
        max: Option<T>,
        exclusive_min: Option<T>,
        exclusive_max: Option<T>,
    ) -> (r: Result<(), RangeError<T>>)
        ensures
            exists|v: Option<T>|
                self.has_range_value(v) && #[trigger] is_range_outcome(
                    r,
                    v,
                    min,
                    max,
                    exclusive_min,
                    exclusive_max,
                ),
    {
        let value = self.range_value();
        let ghost v = value;
        let r = validate_range_value(value, min, max, exclusive_min, exclusive_max);
        assert(self.has_range_value(v) && is_range_outcome(
            r,
            v,
            min,
            max,
            exclusive_min,
            exclusive_max,
        ));
        r
    }
}

impl ValidateRange<bool> for bool {
    open spec fn has_range_value(&self, v: Option<bool>) -> bool {
        v == Some(*self)
    }

    fn range_value(&self) -> (r: Option<bool>) {
        Some(*self)
    }
}

impl ValidateRange<u8> for u8 {
    open spec fn has_range_value(&self, v: Option<u8>) -> bool {
        v == Some(*self)
    }

    fn range_value(&self) -> (r: Option<u8>) {
        Some(*self)
    }
}

impl ValidateRange<u16> for u16 {
    open spec fn has_range_value(&self, v: Option<u16>) -> bool {
        v == Some(*self)
    }

    fn range_value(&self) -> (r: Option<u16>) {
        Some(*self)
    }
}

impl ValidateRange<u32> for u32 {
    open spec fn has_range_value(&self, v: Option<u32>) -> bool {
        v == Some(*self)
    }

    fn range_value(&self) -> (r: Option<u32>) {
        Some(*self)
    }
}

impl ValidateRange<u64> for u64 {
    open spec fn has_range_value(&self, v: Option<u64>) -> bool {
        v == Some(*self)
    }

    fn range_value(&self) -> (r: Option<u64>) {
        Some(*self)
    }
}

impl ValidateRange<u128> for u128 {
    open spec fn has_range_value(&self, v: Option<u128>) -> bool {
        v == Some(*self)
    }

    fn range_value(&self) -> (r: Option<u128>) {
        Some(*self)
    }
}

impl ValidateRange<usize> for usize {
    open spec fn has_range_value(&self, v: Option<usize>) -> bool {
        v == Some(*self)
    }

    fn range_value(&self) -> (r: Option<usize>) {
        Some(*self)
    }
}

impl ValidateRange<i8> for i8 {
    open spec fn has_range_value(&self, v: Option<i8>) -> bool {
        v == Some(*self)
    }

    fn range_value(&self) -> (r: Option<i8>) {
        Some(*self)
    }
}

impl ValidateRange<i16> for i16 {
    open spec fn has_range_value(&self, v: Option<i16>) -> bool {
        v == Some(*self)
    }

    fn range_value(&self) -> (r: Option<i16>) {
        Some(*self)
    }
}

impl ValidateRange<i32> for i32 {
    open spec fn has_range_value(&self, v: Option<i32>) -> bool {
        v == Some(*self)
    }

    fn range_value(&self) -> (r: Option<i32>) {
        Some(*self)
    }
}

impl ValidateRange<i64> for i64 {
    open spec fn has_range_value(&self, v: Option<i64>) -> bool {
        v == Some(*self)
    }

    fn range_value(&self) -> (r: Option<i64>) {
        Some(*self)
    }
}

impl ValidateRange<i128> for i128 {
    open spec fn has_range_value(&self, v: Option<i128>) -> bool {
        v == Some(*self)
    }

    fn range_value(&self) -> (r: Option<i128>) {
        Some(*self)
    }
}

impl ValidateRange<isize> for isize {
    open spec fn has_range_value(&self, v: Option<isize>) -> bool {
        v == Some(*self)
    }

    fn range_value(&self) -> (r: Option<isize>) {
        Some(*self)
    }
}

impl ValidateRange<char> for char {
    open spec fn has_range_value(&self, v: Option<char>) -> bool {
        v == Some(*self)
    }

    fn range_value(&self) -> (r: Option<char>) {
        Some(*self)
    }
}

impl<'a> ValidateRange<&'a str> for &'a str {
    open spec fn has_range_value(&self, v: Option<&'a str>) -> bool {
        v == Some(*self)
    }

    fn range_value(&self) -> (r: Option<&'a str>) {
        Some(*self)
    }
}

impl ValidateRange<String> for String {
    open spec fn has_range_value(&self, v: Option<String>) -> bool {
        v == Some(*self)
    }

    fn range_value(&self) -> (r: Option<String>) {
        Some(self.clone())
    }
}

impl<V: BoundValue, T: ValidateRange<V>> ValidateRange<V> for Option<T> {
    open spec fn has_range_value(&self, v: Option<V>) -> bool {
        match self {
            Some(s) => s.has_range_value(v),
            None => v is None,
        }
    }

    fn range_value(&self) -> (r: Option<V>) {
        match self {
            Some(s) => s.range_value(),
            None => None,
        }
    }
}

impl<'a, V: BoundValue, T: ValidateRange<V>> ValidateRange<V> for &'a T {
    open spec fn has_range_value(&self, v: Option<V>) -> bool {
        (**self).has_range_value(v)
    }

    fn range_value(&self) -> (r: Option<V>) {
        (**self).range_value()
    }
}

impl<V: BoundValue, T: ValidateRange<V>> ValidateRange<V> for Box<T> {
    open spec fn has_range_value(&self, v: Option<V>) -> bool {
        (**self).has_range_value(v)
    }

    fn range_value(&self) -> (r: Option<V>) {
        (**self).range_value()
    }
}

impl<V: BoundValue, T: ValidateRange<V>> ValidateRange<V> for std::rc::Rc<T> {
    open spec fn has_range_value(&self, v: Option<V>) -> bool {
        (**self).has_range_value(v)
    }

    fn range_value(&self) -> (r: Option<V>) {
        (**self).range_value()
    }
}

impl<V: BoundValue, T: ValidateRange<V>> ValidateRange<V> for std::sync::Arc<T> {
    open spec fn has_range_value(&self, v: Option<V>) -> bool {
        (**self).has_range_value(v)
    }

    fn range_value(&self) -> (r: Option<V>) {
        (**self).range_value()
    }
}

impl<'b, V: BoundValue, T: ValidateRange<V>> ValidateRange<V> for std::cell::Ref<'b, T> {
    /// The borrowed value is opaque here, so any value that its type can give is possible.
    open spec fn has_range_value(&self, v: Option<V>) -> bool {
        exists|t: &T| #[trigger] t.has_range_value(v)
    }

    fn range_value(&self) -> (r: Option<V>) {
        ref_contents(self).range_value()
    }
}

impl<'b, V: BoundValue, T: ValidateRange<V>> ValidateRange<V> for std::cell::RefMut<'b, T> {
    /// The borrowed value is opaque here, so any value that its type can give is possible.
    open spec fn has_range_value(&self, v: Option<V>) -> bool {
        exists|t: &T| #[trigger] t.has_range_value(v)
    }

    fn range_value(&self) -> (r: Option<V>) {
        ref_mut_contents(self).range_value()
    }
}

} // verus!
