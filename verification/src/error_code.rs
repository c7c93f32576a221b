//! Error codes: unit values that stand for a fixed code string.

use vstd::prelude::*;

verus! {

/// Email address error code, the string `"emailAddress"`.
#[derive(Debug, Clone, Copy, PartialEq, Eq, Structural)]
pub struct EmailAddressErrorCode;

impl EmailAddressErrorCode {
    /// The code string.
    pub fn as_str(&self) -> (r: &'static str)
        ensures
            r@ == "emailAddress"@,
    {
        "emailAddress"
    }
}

impl Default for EmailAddressErrorCode {
    fn default() -> (r: Self) {
        EmailAddressErrorCode
    }
}

impl core::ops::Deref for EmailAddressErrorCode {
    type Target = str;

    fn deref(&self) -> (r: &str)
        ensures
            r@ == "emailAddress"@,
    {
        "emailAddress"
    }
}

/// Length error code, the string `"length"`.
#[derive(Debug, Clone, Copy, PartialEq, Eq, Structural)]
pub struct LengthErrorCode;

impl LengthErrorCode {
    /// The code string.
    pub fn as_str(&self) -> (r: &'static str)
        ensures
            r@ == "length"@,
    {
        "length"
    }
}

impl Default for LengthErrorCode {
    fn default() -> (r: Self) {
        LengthErrorCode
    }
}

impl core::ops::Deref for LengthErrorCode {
    type Target = str;

    fn deref(&self) -> (r: &str)
        ensures
            r@ == "length"@,
    {
        "length"
    }
}

/// Phone number error code, the string `"phoneNumber"`.
#[derive(Debug, Clone, Copy, PartialEq, Eq, Structural)]
pub struct PhoneNumberErrorCode;

impl PhoneNumberErrorCode {
    /// The code string.
    pub fn as_str(&self) -> (r: &'static str)
        ensures
            r@ == "phoneNumber"@,
    {
        "phoneNumber"
    }
}

impl Default for PhoneNumberErrorCode {
    fn default() -> (r: Self) {
        PhoneNumberErrorCode
    }
}

impl core::ops::Deref for PhoneNumberErrorCode {
    type Target = str;

    fn deref(&self) -> (r: &str)
        ensures
            r@ == "phoneNumber"@,
    {
        "phoneNumber"
    }
}

/// Range error code, the string `"range"`.
#[derive(Debug, Clone, Copy, PartialEq, Eq, Structural)]
pub struct RangeErrorCode;

impl RangeErrorCode {
    /// The code string.
    pub fn as_str(&self) -> (r: &'static str)
        ensures
            r@ == "range"@,
    {
        "range"
    }
}

impl Default for RangeErrorCode {
    fn default() -> (r: Self) {
        RangeErrorCode
    }
}

impl core::ops::Deref for RangeErrorCode {
    type Target = str;

    fn deref(&self) -> (r: &str)
        ensures
            r@ == "range"@,
    {
        "range"
    }
}

/// Regular expression error code, the string `"regex"`.
#[derive(Debug, Clone, Copy, PartialEq, Eq, Structural)]
pub struct RegexErrorCode;

impl RegexErrorCode {
    /// The code string.
    pub fn as_str(&self) -> (r: &'static str)
        ensures
            r@ == "regex"@,
    {
        "regex"
    }
}

impl Default for RegexErrorCode {
    fn default() -> (r: Self) {
        RegexErrorCode
    }
}

impl core::ops::Deref for RegexErrorCode {
    type Target = str;

    fn deref(&self) -> (r: &str)
        ensures
            r@ == "regex"@,
    {
        "regex"
    }
}

} // verus!
