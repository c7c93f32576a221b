//! Length validation.

use vstd::prelude::*;

use crate::bound::BoundValue;
use crate::error_code::LengthErrorCode;
use crate::std_items::{ref_contents, ref_mut_contents};
use crate::text::push_str;

verus! {

/// Length validation error.
#[derive(Debug, PartialEq, Eq)]
pub enum LengthError<T> {
    /// Length is not equal to the required length.
    Equal {
        /// The required length.
        equal: T,
        /// The actual length.
        length: T,
        /// The error code.
        code: LengthErrorCode,
        /// A human-readable error message.
        message: String,
    },
    /// Length is less than the minimum length.
    Min {
        /// The minimum length.
        min: T,
        /// The actual length.
        length: T,
        /// The error code.
        code: LengthErrorCode,
        /// A human-readable error message.
        message: String,
    },
    /// Length is more than the maximum length.
    Max {
        /// The maximum length.
        max: T,
        /// The actual length.
        length: T,
        /// The error code.
        code: LengthErrorCode,
        /// A human-readable error message.
        message: String,
    },
}

/// The bound that a length breaks.
#[derive(Debug, PartialEq, Eq)]
pub enum LengthBound<T> {
    /// The required length, which the length differs from.
    Equal(T),
    /// The minimum length, which the length is below.
    Min(T),
    /// The maximum length, which the length is above.
    Max(T),
}

/// The bound that `length` breaks, if any.
///
/// A required length takes precedence: when `equal` is given, `min` and `max` are not looked at.
/// Otherwise the minimum is checked before the maximum.
pub open spec fn length_violation<T: BoundValue>(
    length: T,
    equal: Option<T>,
    min: Option<T>,
    max: Option<T>,
) -> Option<LengthBound<T>> {
    match equal {
        Some(e) => if !length.spec_same(&e) {
            Some(LengthBound::Equal(e))
        } else {
            None
        },
        None => if min is Some && length.spec_less(&min->0) {
            Some(LengthBound::Min(min->0))
        } else if max is Some && max->0.spec_less(&length) {
            Some(LengthBound::Max(max->0))
        } else {
            None
        },
    }
}

/// The message of the error for a broken bound.
pub open spec fn length_message<T: BoundValue>(bound: LengthBound<T>, length: T) -> Seq<char> {
    match bound {
        LengthBound::Equal(e) => "length "@ + length.spec_text() + " is not equal to required length "@
            + e.spec_text(),
        LengthBound::Min(m) => "length "@ + length.spec_text() + " is less than minimum length "@
            + m.spec_text(),
        LengthBound::Max(m) => "length "@ + length.spec_text() + " is greater than maximum length "@
            + m.spec_text(),
    }
}

/// Whether `e` is the error that reports `length` breaking `bound`.
pub open spec fn is_length_error<T: BoundValue>(
    e: LengthError<T>,
    bound: LengthBound<T>,
    length: T,
) -> bool {
    match (e, bound) {
        (LengthError::Equal { equal, length: l, code: _, message }, LengthBound::Equal(b)) => {
            &&& equal == b
            &&& l == length
            &&& message@ == length_message(bound, length)
        },
        (LengthError::Min { min, length: l, code: _, message }, LengthBound::Min(b)) => {
            &&& min == b
            &&& l == length
            &&& message@ == length_message(bound, length)
        },
        (LengthError::Max { max, length: l, code: _, message }, LengthBound::Max(b)) => {
            &&& max == b
            &&& l == length
            &&& message@ == length_message(bound, length)
        },
        _ => false,
    }
}

/// Whether `r` is the outcome of validating the (optional) `length` against the bounds.
pub open spec fn is_length_outcome<T: BoundValue>(
    r: Result<(), LengthError<T>>,
    length: Option<T>,
    equal: Option<T>,
    min: Option<T>,
    max: Option<T>,
) -> bool {
    match length {
        None => r is Ok,
        Some(l) => match length_violation(l, equal, min, max) {
            None => r is Ok,
            Some(b) => r matches Err(e) && is_length_error(e, b, l),
        },
    }
}

fn length_error_message<T: BoundValue>(length: &T, bound: &T, text: &str) -> (r: String)
    ensures
        r@ == "length "@ + length.spec_text() + text@ + bound.spec_text(),
{
    let mut message = String::new();
    push_str(&mut message, "length ");
    length.push_text(&mut message);
    push_str(&mut message, text);
    bound.push_text(&mut message);
    message
}

/// Validates an optional length against an optional required, minimum and maximum length.
///
/// An absent length is valid.
pub fn validate_length_value<T: BoundValue>(
    length: Option<T>,
    equal: Option<T>,
    min: Option<T>,
    max: Option<T>,
) -> (r: Result<(), LengthError<T>>)
    ensures
        is_length_outcome(r, length, equal, min, max),
{
    let length = match length {
        None => return Ok(()),
        Some(length) => length,
    };
    if let Some(equal) = equal {
        if !length.same_as(&equal) {
            let message = length_error_message(&length, &equal, " is not equal to required length ");
            return Err(LengthError::Equal { equal, length, code: LengthErrorCode, message });
        }
    } else {
        if let Some(min) = min {
            if length.less_than(&min) {
                let message = length_error_message(&length, &min, " is less than minimum length ");
                return Err(LengthError::Min { min, length, code: LengthErrorCode, message });
            }
        }
        if let Some(max) = max {
            if max.less_than(&length) {
                let message = length_error_message(
                    &length,
                    &max,
                    " is greater than maximum length ",
                );
                return Err(LengthError::Max { max, length, code: LengthErrorCode, message });
            }
        }
    }
    Ok(())
}

/// Validate a length.
pub trait ValidateLength<T: BoundValue> {
    /// Whether `l` is what [`ValidateLength::length`] gives for this value.
    spec fn has_length(&self, l: Option<T>) -> bool;

    /// The length.
    fn length(&self) -> (r: Option<T>)
        ensures
            self.has_length(r),
    ;

    /// Validate length.
    ///
    /// The outcome is that of [`validate_length_value`] on what [`ValidateLength::length`] returns.
    fn validate_length(&self, equal: Option<T>, min: Option<T>, max: Option<T>) -> (r: Result<
        (),
        LengthError<T>,
    >)
        ensures
            exists|l: Option<T>|
                self.has_length(l) && #[trigger] is_length_outcome(r, l, equal, min, max),
    {
        let length = self.length();
        let ghost l = length;
        let r = validate_length_value(length, equal, min, max);
        assert(self.has_length(l) && is_length_outcome(r, l, equal, min, max));
        r
    }
}

impl ValidateLength<usize> for str {
    open spec fn has_length(&self, l: Option<usize>) -> bool {
        l == Some(self@.len() as usize)
    }

    fn length(&self) -> (r: Option<usize>) {
        Some(self.unicode_len())
    }
}

impl<'a> ValidateLength<usize> for &'a str {
    open spec fn has_length(&self, l: Option<usize>) -> bool {
        l == Some(self@.len() as usize)
    }

    fn length(&self) -> (r: Option<usize>) {
        Some(self.unicode_len())
    }
}

impl ValidateLength<usize> for String {
    open spec fn has_length(&self, l: Option<usize>) -> bool {
        l == Some(self@.len() as usize)
    }

    fn length(&self) -> (r: Option<usize>) {
        Some(self.as_str().unicode_len())
    }
}

impl<T, const N: usize> ValidateLength<usize> for [T; N] {
    open spec fn has_length(&self, l: Option<usize>) -> bool {
        l == Some(N)
    }

    fn length(&self) -> (r: Option<usize>) {
        Some(N)
    }
}

impl<T> ValidateLength<usize> for [T] {
    open spec fn has_length(&self, l: Option<usize>) -> bool {
        l == Some(self@.len() as usize)
    }

    fn length(&self) -> (r: Option<usize>) {
        Some(self.len())
    }
}

impl<'a, T> ValidateLength<usize> for &'a [T] {
    open spec fn has_length(&self, l: Option<usize>) -> bool {
        l == Some(self@.len() as usize)
    }

    fn length(&self) -> (r: Option<usize>) {
        Some(self.len())
    }
}

impl<T> ValidateLength<usize> for Vec<T> {
    open spec fn has_length(&self, l: Option<usize>) -> bool {
        l == Some(self@.len() as usize)
    }

    fn length(&self) -> (r: Option<usize>) {
        Some(self.len())
    }
}

impl<T> ValidateLength<usize> for std::collections::VecDeque<T> {
    open spec fn has_length(&self, l: Option<usize>) -> bool {
        l == Some(self.len())
    }

    fn length(&self) -> (r: Option<usize>) {
        Some(self.len())
    }
}

impl<T> ValidateLength<usize> for std::collections::BTreeSet<T> {
    open spec fn has_length(&self, l: Option<usize>) -> bool {
        l == Some(self.len())
    }

    fn length(&self) -> (r: Option<usize>) {
        Some(self.len())
    }
}

impl<K, V> ValidateLength<usize> for std::collections::BTreeMap<K, V> {
    open spec fn has_length(&self, l: Option<usize>) -> bool {
        l == Some(self.len())
    }

    fn length(&self) -> (r: Option<usize>) {
        Some(self.len())
    }
}

impl<T, S> ValidateLength<usize> for std::collections::HashSet<T, S> {
    open spec fn has_length(&self, l: Option<usize>) -> bool {
        l == Some(self.len())
    }

    fn length(&self) -> (r: Option<usize>) {
        Some(self.len())
    }
}

impl<K, V, S> ValidateLength<usize> for std::collections::HashMap<K, V, S> {
    open spec fn has_length(&self, l: Option<usize>) -> bool {
        l == Some(self.len())
    }

    fn length(&self) -> (r: Option<usize>) {
        Some(self.len())
    }
}

impl<L: BoundValue, T: ValidateLength<L>> ValidateLength<L> for Option<T> {
    open spec fn has_length(&self, l: Option<L>) -> bool {
        match self {
            Some(s) => s.has_length(l),
            None => l is None,
        }
    }

    fn length(&self) -> (r: Option<L>) {
        match self {
            Some(s) => s.length(),
            None => None,
        }
    }
}

impl<'a, L: BoundValue, T: ValidateLength<L>> ValidateLength<L> for &'a T {
    open spec fn has_length(&self, l: Option<L>) -> bool {
        (**self).has_length(l)
    }

    fn length(&self) -> (r: Option<L>) {
        (**self).length()
    }
}

impl<L: BoundValue, T: ValidateLength<L>> ValidateLength<L> for Box<T> {
    open spec fn has_length(&self, l: Option<L>) -> bool {
        (**self).has_length(l)
    }

    fn length(&self) -> (r: Option<L>) {
        (**self).length()
    }
}

impl<L: BoundValue, T: ValidateLength<L>> ValidateLength<L> for std::rc::Rc<T> {
    open spec fn has_length(&self, l: Option<L>) -> bool {
        (**self).has_length(l)
    }

    fn length(&self) -> (r: Option<L>) {
        (**self).length()
    }
}

impl<L: BoundValue, T: ValidateLength<L>> ValidateLength<L> for std::sync::Arc<T> {
    open spec fn has_length(&self, l: Option<L>) -> bool {
        (**self).has_length(l)
    }

    fn length(&self) -> (r: Option<L>) {
        (**self).length()
    }
}

impl<'b, L: BoundValue, T: ValidateLength<L>> ValidateLength<L> for std::cell::Ref<'b, T> {
    /// The borrowed value is opaque here, so any length that its type can give is possible.
    open spec fn has_length(&self, l: Option<L>) -> bool {
        exists|t: &T| #[trigger] t.has_length(l)
    }

    fn length(&self) -> (r: Option<L>) {
        ref_contents(self).length()
    }
}

impl<'b, L: BoundValue, T: ValidateLength<L>> ValidateLength<L> for std::cell::RefMut<'b, T> {
    /// The borrowed value is opaque here, so any length that its type can give is possible.
    open spec fn has_length(&self, l: Option<L>) -> bool {
        exists|t: &T| #[trigger] t.has_length(l)
    }

    fn length(&self) -> (r: Option<L>) {
        ref_mut_contents(self).length()
    }
}

impl<'a> ValidateLength<usize> for std::borrow::Cow<'a, str> {
    open spec fn has_length(&self, l: Option<usize>) -> bool {
        l == Some(self@.len() as usize)
    }

    fn length(&self) -> (r: Option<usize>) {
        match self {
            std::borrow::Cow::Borrowed(s) => Some(s.unicode_len()),
            std::borrow::Cow::Owned(s) => Some(s.as_str().unicode_len()),
        }
    }
}

} // verus!
