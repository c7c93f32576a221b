//! Regular expression validation.

use vstd::prelude::*;

use crate::error_code::RegexErrorCode;
use crate::std_items::{ref_contents, ref_mut_contents};

use std::borrow::Cow;

verus! {

/// `regex::Regex`, a compiled regular expression.
#[verifier::external_type_specification]
#[verifier::external_body]
pub struct ExRegex(regex::Regex);

/// Whether the compiled regular expression `regex` matches somewhere in `haystack`, as
/// `Regex::is_match` answers: a function of the two alone.
pub uninterp spec fn regex_match_outcome(regex: regex::Regex, haystack: Seq<char>) -> bool;

/// `Regex::is_match`: whether the regular expression matches somewhere in `haystack` (an
/// unanchored search). The answer is named by [`regex_match_outcome`].
#[verifier::external_body]
fn regex_is_match(regex: &regex::Regex, haystack: &str) -> (r: bool)
    ensures
        r == regex_match_outcome(*regex, haystack@),
{
    regex.is_match(haystack)
}

/// Convert to a regular expression.
pub trait AsRegex {
    /// Whether `r` is the regular expression that [`AsRegex::as_regex`] gives for this value.
    /// An implementation that does not define it states nothing of it.
    open spec fn is_regex(&self, r: regex::Regex) -> bool {
        true
    }

    /// Convert to a regular expression.
    fn as_regex(&self) -> (r: &regex::Regex)
        ensures
            self.is_regex(*r),
    ;
}

impl AsRegex for regex::Regex {
    /// A regular expression is itself.
    open spec fn is_regex(&self, r: regex::Regex) -> bool {
        r == *self
    }

    fn as_regex(&self) -> (r: &regex::Regex) {
        self
    }
}

impl<'a, T: AsRegex> AsRegex for &'a T {
    /// A reference gives the regular expression of what it refers to.
    open spec fn is_regex(&self, r: regex::Regex) -> bool {
        (**self).is_regex(r)
    }

    fn as_regex(&self) -> (r: &regex::Regex) {
        (**self).as_regex()
    }
}

/// Regular expression validation error.
#[derive(Debug, PartialEq, Eq)]
pub struct RegexError {
    /// The error code.
    pub code: RegexErrorCode,
    /// A human-readable error message.
    pub message: String,
}

/// Whether `e` is the error for a value that does not match.
pub open spec fn is_no_match_error(e: RegexError) -> bool {
    e.message@ == "value does not match regular expression"@
}

impl Default for RegexError {
    fn default() -> (r: Self)
        ensures
            is_no_match_error(r),
    {
        RegexError {
            code: RegexErrorCode,
            message: String::from_str("value does not match regular expression"),
        }
    }
}

/// Whether `r` is the outcome of validating a value of which `matched` says whether the
/// regular expression matches it.
pub open spec fn is_regex_outcome(r: Result<(), RegexError>, matched: bool) -> bool {
    if matched {
        r is Ok
    } else {
        r matches Err(e) && is_no_match_error(e)
    }
}

/// The outcome of a regular expression validation, given whether the expression matched.
pub fn regex_outcome(matched: bool) -> (r: Result<(), RegexError>)
    ensures
        is_regex_outcome(r, matched),
{
    if matched {
        Ok(())
    } else {
        Err(RegexError::default())
    }
}

/// Whether `r` is the outcome of validating the (optional) text `text` against `regex`: valid
/// when there is no text, else valid exactly when the regular expression that `regex` gives
/// matches the text, and otherwise the no-match error.
pub open spec fn is_regex_validation<R: AsRegex>(
    r: Result<(), RegexError>,
    regex: R,
    text: Option<Seq<char>>,
) -> bool {
    match text {
        None => r is Ok,
        Some(t) => exists|rx: regex::Regex|
            #[trigger] regex.is_regex(rx) && is_regex_outcome(r, regex_match_outcome(rx, t)),
    }
}

/// Validates a text against a regular expression.
pub fn validate_regex_value<R: AsRegex>(value: &str, regex: R) -> (r: Result<(), RegexError>)
    ensures
        is_regex_validation(r, regex, Some(value@)),
{
    let rx = regex.as_regex();
    let matched = regex_is_match(rx, value);
    let r = regex_outcome(matched);
    assert(regex.is_regex(*rx) && is_regex_outcome(r, regex_match_outcome(*rx, value@)));
    r
}

/// Validate a regular expression.
pub trait ValidateRegex {
    /// Whether `t` is the text that this value validates (`None` for no text). An
    /// implementation that does not define it states nothing of it.
    open spec fn regex_text(&self, t: Option<Seq<char>>) -> bool {
        true
    }

    /// Validate regular expression.
    fn validate_regex<R: AsRegex>(&self, regex: R) -> (r: Result<(), RegexError>)
        ensures
            exists|t: Option<Seq<char>>|
                self.regex_text(t) && #[trigger] is_regex_validation(r, regex, t),
    ;
}

impl ValidateRegex for str {
    open spec fn regex_text(&self, t: Option<Seq<char>>) -> bool {
        t == Some(self@)
    }

    fn validate_regex<R: AsRegex>(&self, regex: R) -> (r: Result<(), RegexError>) {
        validate_regex_value(self, regex)
    }
}

impl<'a> ValidateRegex for &'a str {
    open spec fn regex_text(&self, t: Option<Seq<char>>) -> bool {
        t == Some(self@)
    }

    fn validate_regex<R: AsRegex>(&self, regex: R) -> (r: Result<(), RegexError>) {
        validate_regex_value(*self, regex)
    }
}

impl ValidateRegex for String {
    open spec fn regex_text(&self, t: Option<Seq<char>>) -> bool {
        t == Some(self@)
    }

    fn validate_regex<R: AsRegex>(&self, regex: R) -> (r: Result<(), RegexError>) {
        validate_regex_value(self.as_str(), regex)
    }
}

impl<'a> ValidateRegex for Cow<'a, str> {
    open spec fn regex_text(&self, t: Option<Seq<char>>) -> bool {
        t == Some(self@)
    }

    fn validate_regex<R: AsRegex>(&self, regex: R) -> (r: Result<(), RegexError>) {
        match self {
            Cow::Borrowed(s) => validate_regex_value(*s, regex),
            Cow::Owned(s) => validate_regex_value(s.as_str(), regex),
        }
    }
}

impl<T: ValidateRegex> ValidateRegex for Option<T> {
    /// No text when absent, else the text of the value.
    open spec fn regex_text(&self, t: Option<Seq<char>>) -> bool {
        match self {
            Some(v) => v.regex_text(t),
            None => t is None,
        }
    }

    fn validate_regex<R: AsRegex>(&self, regex: R) -> (r: Result<(), RegexError>) {
        match self {
            Some(value) => value.validate_regex(regex),
            None => {
                assert(is_regex_validation(Ok(()), regex, None));
                Ok(())
            },
        }
    }
}

impl<'a, T: ValidateRegex> ValidateRegex for &'a T {
    open spec fn regex_text(&self, t: Option<Seq<char>>) -> bool {
        (**self).regex_text(t)
    }

    fn validate_regex<R: AsRegex>(&self, regex: R) -> (r: Result<(), RegexError>) {
        (**self).validate_regex(regex)
    }
}

impl<T: ValidateRegex> ValidateRegex for Box<T> {
    open spec fn regex_text(&self, t: Option<Seq<char>>) -> bool {
        (**self).regex_text(t)
    }

    fn validate_regex<R: AsRegex>(&self, regex: R) -> (r: Result<(), RegexError>) {
        (**self).validate_regex(regex)
    }
}

impl<T: ValidateRegex> ValidateRegex for std::rc::Rc<T> {
    open spec fn regex_text(&self, t: Option<Seq<char>>) -> bool {
        (**self).regex_text(t)
    }

    fn validate_regex<R: AsRegex>(&self, regex: R) -> (r: Result<(), RegexError>) {
        (**self).validate_regex(regex)
    }
}

impl<T: ValidateRegex> ValidateRegex for std::sync::Arc<T> {
    open spec fn regex_text(&self, t: Option<Seq<char>>) -> bool {
        (**self).regex_text(t)
    }

    fn validate_regex<R: AsRegex>(&self, regex: R) -> (r: Result<(), RegexError>) {
        (**self).validate_regex(regex)
    }
}

impl<'b, T: ValidateRegex> ValidateRegex for std::cell::Ref<'b, T> {
    /// The borrowed value is opaque here, so any text that its type can validate is possible.
    open spec fn regex_text(&self, t: Option<Seq<char>>) -> bool {
        exists|x: &T| #[trigger] x.regex_text(t)
    }

    fn validate_regex<R: AsRegex>(&self, regex: R) -> (r: Result<(), RegexError>) {
        ref_contents(self).validate_regex(regex)
    }
}

impl<'b, T: ValidateRegex> ValidateRegex for std::cell::RefMut<'b, T> {
    /// The borrowed value is opaque here, so any text that its type can validate is possible.
    open spec fn regex_text(&self, t: Option<Seq<char>>) -> bool {
        exists|x: &T| #[trigger] x.regex_text(t)
    }

    fn validate_regex<R: AsRegex>(&self, regex: R) -> (r: Result<(), RegexError>) {
        ref_mut_contents(self).validate_regex(regex)
    }
}

} // verus!
