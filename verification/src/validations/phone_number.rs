//! Phone number validation.

use vstd::prelude::*;

use super::email_addresses::{cow_text, cow_text_view};
use crate::error_code::PhoneNumberErrorCode;
use crate::std_items::{ref_contents, ref_mut_contents};
use crate::text::push_str;

use phonenumber::country::Id as PhoneNumberCountry;
use phonenumber::ParseError as PhoneParseError;
use std::borrow::Cow;
use std::fmt::Write;

verus! {

use PhoneNumberParseErrorKind as PhoneKind;

/// `phonenumber::country::Id`, a country of the CLDR.
#[verifier::external_type_specification]
#[verifier::external_body]
pub struct ExPhoneNumberCountry(phonenumber::country::Id);

/// `phonenumber::PhoneNumber`, a parsed phone number.
#[verifier::external_type_specification]
#[verifier::external_body]
pub struct ExPhoneNumber(phonenumber::PhoneNumber);

/// Phone number validation error.
#[derive(Debug, PartialEq, Eq)]
pub enum PhoneNumberError {
    /// No number error.
    NoNumber {
        /// The error code.
        code: PhoneNumberErrorCode,
        /// A human-readable error message.
        message: String,
    },
    /// Invalid country error.
    InvalidCountryCode {
        /// The error code.
        code: PhoneNumberErrorCode,
        /// A human-readable error message.
        message: String,
    },
    /// Too short after IDD error.
    TooShortAfterIdd {
        /// The error code.
        code: PhoneNumberErrorCode,
        /// A human-readable error message.
        message: String,
    },
    /// Too short NSN error.
    TooShortNsn {
        /// The error code.
        code: PhoneNumberErrorCode,
        /// A human-readable error message.
        message: String,
    },
    /// Too long error.
    TooLong {
        /// The error code.
        code: PhoneNumberErrorCode,
        /// A human-readable error message.
        message: String,
    },
    /// Malformed integer error.
    MalformedInteger {
        /// The error code.
        code: PhoneNumberErrorCode,
        /// A human-readable error message.
        message: String,
    },
    /// Disallowed country code error.
    DisallowedCountryCode {
        /// The error code.
        code: PhoneNumberErrorCode,
        /// Allowed country codes.
        allowed: Vec<PhoneNumberCountry>,
        /// The actual country code.
        ///
        /// `None` if the country calling code did not match a country.
        value: Option<PhoneNumberCountry>,
        /// A human-readable error message.
        message: String,
    },
}

/// The ways in which parsing a phone number can fail: the variants of `phonenumber::ParseError`.
#[derive(Debug, Clone, Copy, PartialEq, Eq, Structural)]
pub enum PhoneNumberParseErrorKind {
    /// No number.
    NoNumber,
    /// Invalid country.
    InvalidCountryCode,
    /// Too short after IDD.
    TooShortAfterIdd,
    /// Too short NSN.
    TooShortNsn,
    /// Too long.
    TooLong,
    /// Malformed integer.
    MalformedInteger,
}

/// Whether `e` is the error for a parse failure of kind `k`: the variant of the same name, with
/// its message.
pub open spec fn is_phone_parse_error(e: PhoneNumberError, k: PhoneNumberParseErrorKind) -> bool {
    match k {
        PhoneKind::NoNumber => e matches PhoneNumberError::NoNumber { message, .. } && message@
            == "no number"@,
        PhoneKind::InvalidCountryCode => e matches PhoneNumberError::InvalidCountryCode { message, .. } && message@
            == "invalid country code"@,
        PhoneKind::TooShortAfterIdd => e matches PhoneNumberError::TooShortAfterIdd { message, .. } && message@
            == "too short after IDD"@,
        PhoneKind::TooShortNsn => e matches PhoneNumberError::TooShortNsn { message, .. } && message@
            == "too short NSN"@,
        PhoneKind::TooLong => e matches PhoneNumberError::TooLong { message, .. } && message@
            == "too long"@,
        PhoneKind::MalformedInteger => e matches PhoneNumberError::MalformedInteger { message, .. } && message@
            == "malformed integer"@,
    }
}

impl PhoneNumberError {
    /// The error for a parse failure of kind `kind`.
    pub fn from_kind(kind: PhoneNumberParseErrorKind) -> (r: Self)
        ensures
            is_phone_parse_error(r, kind),
    {
        let code = PhoneNumberErrorCode;
        match kind {
            PhoneKind::NoNumber => PhoneNumberError::NoNumber {
                code,
                message: String::from_str("no number"),
            },
            PhoneKind::InvalidCountryCode => PhoneNumberError::InvalidCountryCode {
                code,
                message: String::from_str("invalid country code"),
            },
            PhoneKind::TooShortAfterIdd => PhoneNumberError::TooShortAfterIdd {
                code,
                message: String::from_str("too short after IDD"),
            },
            PhoneKind::TooShortNsn => PhoneNumberError::TooShortNsn {
                code,
                message: String::from_str("too short NSN"),
            },
            PhoneKind::TooLong => PhoneNumberError::TooLong {
                code,
                message: String::from_str("too long"),
            },
            PhoneKind::MalformedInteger => PhoneNumberError::MalformedInteger {
                code,
                message: String::from_str("malformed integer"),
            },
        }
    }
}

/// The outcome of `phonenumber::parse` on `text`, read with `default_country` for numbers
/// without a country calling code: on success the CLDR country of the number's calling code
/// (`None` where the code is shared by no single country, as `country().id()` gives it), and
/// on failure the kind of its `phonenumber::ParseError`. A function of its arguments alone.
pub uninterp spec fn phone_number_parse_outcome(
    default_country: Option<PhoneNumberCountry>,
    text: Seq<char>,
) -> Result<Option<PhoneNumberCountry>, PhoneNumberParseErrorKind>;

/// `phonenumber::parse`, followed on success by `country().id()` of the parsed number; the
/// outcome is named by [`phone_number_parse_outcome`]. The parser's own `unwrap`s and slices
/// are guarded in its source: a prefix is unwrapped after `is_some`; the national number is
/// normalized to ASCII digits and its leading one to three digits are sliced and read as a
/// number only once it is longer than two; and the default country's metadata is looked up in
/// the database built from the bundled metadata, which has a territory for every `Id`.
#[verifier::external_body]
fn parse_phone_number_country(
    default_country: Option<PhoneNumberCountry>,
    text: &str,
) -> (r: Result<Option<PhoneNumberCountry>, PhoneNumberParseErrorKind>)
    ensures
        r == phone_number_parse_outcome(default_country, text@),
        text@.len() == 0 ==> r matches Err(PhoneKind::NoNumber),
{
    match phonenumber::parse(default_country, text) {
        Ok(number) => Ok(number.country().id()),
        Err(PhoneParseError::NoNumber) => Err(PhoneKind::NoNumber),
        Err(PhoneParseError::InvalidCountryCode) => Err(PhoneKind::InvalidCountryCode),
        Err(PhoneParseError::TooShortAfterIdd) => Err(PhoneKind::TooShortAfterIdd),
        Err(PhoneParseError::TooShortNsn) => Err(PhoneKind::TooShortNsn),
        Err(PhoneParseError::TooLong) => Err(PhoneKind::TooLong),
        Err(PhoneParseError::MalformedInteger(_)) => Err(PhoneKind::MalformedInteger),
    }
}

/// `PartialEq::eq` of `phonenumber::country::Id`, which `derive` writes for a fieldless enum:
/// whether the two countries are the same.
#[verifier::external_body]
fn same_country(a: &PhoneNumberCountry, b: &PhoneNumberCountry) -> (r: bool)
    ensures
        r == (*a == *b),
{
    a == b
}

/// Whether `code` has the form of a country code: two upper-case ASCII letters.
pub open spec fn is_country_code(code: Seq<char>) -> bool {
    &&& code.len() == 2
    &&& 'A' <= code[0] <= 'Z'
    &&& 'A' <= code[1] <= 'Z'
}

/// The code of a country, such as `GB`, as `AsRef<str>` of `phonenumber::country::Id` gives it.
pub uninterp spec fn country_code_text(country: PhoneNumberCountry) -> Seq<char>;

/// `AsRef<str>` of `phonenumber::country::Id`: the code of the country, named by
/// [`country_code_text`]. `Id` derives it (strum's `AsRefStr`) from the names of its variants,
/// each of which is two upper-case letters.
#[verifier::external_body]
fn country_code<'a>(country: &'a PhoneNumberCountry) -> (r: &'a str)
    ensures
        r@ == country_code_text(*country),
        is_country_code(r@),
{
    country.as_ref()
}

/// The texts `parts`, joined with `separator` between each two.
pub open spec fn joined(parts: Seq<Seq<char>>, separator: Seq<char>) -> Seq<char>
    decreases parts.len(),
{
    if parts.len() == 0 {
        Seq::empty()
    } else if parts.len() == 1 {
        parts[0]
    } else {
        joined(parts.drop_last(), separator) + separator + parts.last()
    }
}

/// The codes of `countries`, in order, joined with `, `.
pub open spec fn country_codes_text(countries: Seq<PhoneNumberCountry>) -> Seq<char> {
    joined(countries.map_values(|c: PhoneNumberCountry| country_code_text(c)), ", "@)
}

/// The text of a `phonenumber::PhoneNumber` as its `Display` writes it (the E.164 form: `+`,
/// the calling code and the national number), or `None` where its `Display` fails, which it
/// does for a number whose calling code has no metadata (a deserialized number can have one).
pub uninterp spec fn phone_number_display(number: phonenumber::PhoneNumber) -> Option<Seq<char>>;

/// `Display` of `phonenumber::PhoneNumber`, written into a new string: its text, or `None`
/// where it fails; named by [`phone_number_display`].
#[verifier::external_body]
fn phone_number_text(number: &phonenumber::PhoneNumber) -> (r: Option<String>)
    ensures
        match r {
            Some(text) => phone_number_display(*number) == Some(text@),
            None => phone_number_display(*number) is None,
        },
{
    let mut text = String::new();
    match write!(text, "{}", number) {
        Ok(()) => Some(text),
        Err(_) => None,
    }
}

/// Whether `country` is among `allowed`.
pub fn country_allowed(country: &PhoneNumberCountry, allowed: &Vec<PhoneNumberCountry>) -> (r: bool)
    ensures
        r == allowed@.contains(*country),
{
    let n = allowed.len();
    let mut i: usize = 0;
    while i < n
        invariant
            n == allowed@.len(),
            i <= n,
            forall|j: int| 0 <= j < i ==> allowed@[j] != *country,
        decreases n - i,
    {
        if same_country(&allowed[i], country) {
            return true;
        }
        i = i + 1;
    }
    false
}

/// The codes of the countries, joined with `, `.
fn joined_country_codes(countries: &Vec<PhoneNumberCountry>) -> (r: String)
    ensures
        r@ == country_codes_text(countries@),
{
    let mut text = String::new();
    let ghost all = countries@.map_values(|c: PhoneNumberCountry| country_code_text(c));
    let n = countries.len();
    let mut i: usize = 0;
    while i < n
        invariant
            n == countries@.len(),
            all == countries@.map_values(|c: PhoneNumberCountry| country_code_text(c)),
            i <= n,
            text@ == joined(all.take(i as int), ", "@),
        decreases n - i,
    {
        if i > 0 {
            push_str(&mut text, ", ");
        }
        let code = country_code(&countries[i]);
        push_str(&mut text, code);
        proof {
            assert(all.take(i + 1).drop_last() =~= all.take(i as int));
            assert(all.take(i + 1).last() == code@);
        }
        i = i + 1;
    }
    assert(all.take(n as int) =~= all);
    text
}

/// Whether `r` is the outcome of checking the country `value` of a parsed number against the
/// optional list of allowed countries.
pub open spec fn is_country_outcome(
    r: Result<(), PhoneNumberError>,
    value: Option<PhoneNumberCountry>,
    allowed: Option<Vec<PhoneNumberCountry>>,
) -> bool {
    match allowed {
        None => r is Ok,
        Some(a) => if value matches Some(c) && a@.contains(c) {
            r is Ok
        } else {
            r matches Err(
                PhoneNumberError::DisallowedCountryCode { allowed: al, value: v, message: m, .. },
            ) && al == a && v == value && m@ == disallowed_country_message(value, a@)
        },
    }
}

/// The message for a country `value` that is not among `allowed`.
pub open spec fn disallowed_country_message(
    value: Option<PhoneNumberCountry>,
    allowed: Seq<PhoneNumberCountry>,
) -> Seq<char> {
    match value {
        Some(c) => "country code `"@ + country_code_text(c) + "` is not allowed, must be one of `"@
            + country_codes_text(allowed) + "`"@,
        None => "unknown country code, must be one of `"@ + country_codes_text(allowed) + "`"@,
    }
}

/// Checks the country of a parsed number against an optional list of allowed countries: any
/// country is allowed without a list; with one, the country must be known and listed.
pub fn check_phone_number_country(
    value: Option<PhoneNumberCountry>,
    allowed: Option<Vec<PhoneNumberCountry>>,
) -> (r: Result<(), PhoneNumberError>)
    ensures
        is_country_outcome(r, value, allowed),
{
    let allowed = match allowed {
        None => return Ok(()),
        Some(allowed) => allowed,
    };
    match value {
        Some(country) => {
            if country_allowed(&country, &allowed) {
                return Ok(());
            }
            let mut message = String::from_str("country code `");
            push_str(&mut message, country_code(&country));
            push_str(&mut message, "` is not allowed, must be one of `");
            let codes = joined_country_codes(&allowed);
            push_str(&mut message, codes.as_str());
            push_str(&mut message, "`");
            Err(
                PhoneNumberError::DisallowedCountryCode {
                    allowed,
                    value: Some(country),
                    code: PhoneNumberErrorCode,
                    message,
                },
            )
        },
        None => {
            let mut message = String::from_str("unknown country code, must be one of `");
            let codes = joined_country_codes(&allowed);
            push_str(&mut message, codes.as_str());
            push_str(&mut message, "`");
            Err(
                PhoneNumberError::DisallowedCountryCode {
                    allowed,
                    value: None,
                    code: PhoneNumberErrorCode,
                    message,
                },
            )
        },
    }
}

/// Whether `r` is the outcome of validating the (optional) phone number text `text`, read with
/// `default_country`, against the optional list of allowed countries: valid when there is no
/// text; otherwise the error of the parse failure, or the outcome of checking the country of
/// the parsed number.
pub open spec fn is_phone_number_outcome(
    r: Result<(), PhoneNumberError>,
    text: Option<Seq<char>>,
    default_country: Option<PhoneNumberCountry>,
    allowed: Option<Vec<PhoneNumberCountry>>,
) -> bool {
    match text {
        None => r is Ok,
        Some(t) => match phone_number_parse_outcome(default_country, t) {
            Err(k) => r matches Err(e) && is_phone_parse_error(e, k),
            Ok(c) => is_country_outcome(r, c, allowed),
        },
    }
}

/// Validates an optional phone number: absent is valid; otherwise it must parse (with
/// `default_country` for numbers without a calling code), and, when `allowed_countries` is
/// given, its country must be known and listed.
pub fn validate_phone_number_value(
    text: Option<&str>,
    default_country: Option<PhoneNumberCountry>,
    allowed_countries: Option<Vec<PhoneNumberCountry>>,
) -> (r: Result<(), PhoneNumberError>)
    ensures
        is_phone_number_outcome(
            r,
            match text {
                Some(t) => Some(t@),
                None => None,
            },
            default_country,
            allowed_countries,
        ),
        text matches Some(t) && t@.len() == 0 ==> r matches Err(PhoneNumberError::NoNumber { .. }),
{
    let text = match text {
        None => return Ok(()),
        Some(text) => text,
    };
    match parse_phone_number_country(default_country, text) {
        Err(kind) => Err(PhoneNumberError::from_kind(kind)),
        Ok(country) => check_phone_number_country(country, allowed_countries),
    }
}

/// Validate a phone number.
pub trait ValidatePhoneNumber {
    /// Whether `t` is the text of what [`ValidatePhoneNumber::phone_number`] gives for this value.
    spec fn has_phone_number(&self, t: Option<Seq<char>>) -> bool;

    /// The phone number.
    fn phone_number(&self) -> (r: Option<Cow<'_, str>>)
        ensures
            self.has_phone_number(cow_text_view(r)),
    ;

    /// Validate phone number.
    ///
    /// The outcome is that of [`validate_phone_number_value`] on what
    /// [`ValidatePhoneNumber::phone_number`] returns.
    fn validate_phone_number(
        &self,
        default_country: Option<PhoneNumberCountry>,
        allowed_countries: Option<Vec<PhoneNumberCountry>>,
    ) -> (r: Result<(), PhoneNumberError>)
        ensures
            exists|t: Option<Seq<char>>|
                self.has_phone_number(t) && #[trigger] is_phone_number_outcome(
                    r,
                    t,
                    default_country,
                    allowed_countries,
                ),
    {
        let number = self.phone_number();
        let text = cow_text(&number);
        let r = validate_phone_number_value(text, default_country, allowed_countries);
        assert(self.has_phone_number(cow_text_view(number)) && is_phone_number_outcome(
            r,
            cow_text_view(number),
            default_country,
            allowed_countries,
        ));
        r
    }
}

impl ValidatePhoneNumber for str {
    open spec fn has_phone_number(&self, t: Option<Seq<char>>) -> bool {
        t == Some(self@)
    }

    fn phone_number(&self) -> (r: Option<Cow<'_, str>>) {
        Some(Cow::Borrowed(self))
    }
}

impl<'a> ValidatePhoneNumber for &'a str {
    open spec fn has_phone_number(&self, t: Option<Seq<char>>) -> bool {
        t == Some(self@)
    }

    fn phone_number(&self) -> (r: Option<Cow<'_, str>>) {
        Some(Cow::Borrowed(*self))
    }
}

impl ValidatePhoneNumber for String {
    open spec fn has_phone_number(&self, t: Option<Seq<char>>) -> bool {
        t == Some(self@)
    }

    fn phone_number(&self) -> (r: Option<Cow<'_, str>>) {
        Some(Cow::Borrowed(self.as_str()))
    }
}

impl<'a> ValidatePhoneNumber for Cow<'a, str> {
    open spec fn has_phone_number(&self, t: Option<Seq<char>>) -> bool {
        t == Some(self@)
    }

    fn phone_number(&self) -> (r: Option<Cow<'_, str>>) {
        match self {
            Cow::Borrowed(s) => Some(Cow::Borrowed(*s)),
            Cow::Owned(s) => Some(Cow::Borrowed(s.as_str())),
        }
    }
}

impl ValidatePhoneNumber for phonenumber::PhoneNumber {
    /// The text of the number; a number that cannot be written is given as the empty text,
    /// which does not parse, so that its validation fails with the no-number error.
    open spec fn has_phone_number(&self, t: Option<Seq<char>>) -> bool {
        t == Some(
            match phone_number_display(*self) {
                Some(text) => text,
                None => Seq::empty(),
            },
        )
    }

    fn phone_number(&self) -> (r: Option<Cow<'_, str>>) {
        match phone_number_text(self) {
            Some(text) => Some(Cow::Owned(text)),
            None => Some(Cow::Owned(String::new())),
        }
    }
}

impl<T: ValidatePhoneNumber> ValidatePhoneNumber for Option<T> {
    open spec fn has_phone_number(&self, t: Option<Seq<char>>) -> bool {
        match self {
            Some(s) => s.has_phone_number(t),
            None => t is None,
        }
    }

    fn phone_number(&self) -> (r: Option<Cow<'_, str>>) {
        match self {
            Some(s) => s.phone_number(),
            None => None,
        }
    }
}

impl<'a, T: ValidatePhoneNumber> ValidatePhoneNumber for &'a T {
    open spec fn has_phone_number(&self, t: Option<Seq<char>>) -> bool {
        (**self).has_phone_number(t)
    }

    fn phone_number(&self) -> (r: Option<Cow<'_, str>>) {
        (**self).phone_number()
    }
}

impl<T: ValidatePhoneNumber> ValidatePhoneNumber for Box<T> {
    open spec fn has_phone_number(&self, t: Option<Seq<char>>) -> bool {
        (**self).has_phone_number(t)
    }

    fn phone_number(&self) -> (r: Option<Cow<'_, str>>) {
        (**self).phone_number()
    }
}

impl<T: ValidatePhoneNumber> ValidatePhoneNumber for std::rc::Rc<T> {
    open spec fn has_phone_number(&self, t: Option<Seq<char>>) -> bool {
        (**self).has_phone_number(t)
    }

    fn phone_number(&self) -> (r: Option<Cow<'_, str>>) {
        (**self).phone_number()
    }
}

impl<T: ValidatePhoneNumber> ValidatePhoneNumber for std::sync::Arc<T> {
    open spec fn has_phone_number(&self, t: Option<Seq<char>>) -> bool {
        (**self).has_phone_number(t)
    }

    fn phone_number(&self) -> (r: Option<Cow<'_, str>>) {
        (**self).phone_number()
    }
}

impl<'b, T: ValidatePhoneNumber> ValidatePhoneNumber for std::cell::Ref<'b, T> {
    /// The borrowed value is opaque here, so any text that its type can give is possible.
    open spec fn has_phone_number(&self, t: Option<Seq<char>>) -> bool {
        exists|x: &T| #[trigger] x.has_phone_number(t)
    }

    fn phone_number(&self) -> (r: Option<Cow<'_, str>>) {
        ref_contents(self).phone_number()
    }
}

impl<'b, T: ValidatePhoneNumber> ValidatePhoneNumber for std::cell::RefMut<'b, T> {
    /// The borrowed value is opaque here, so any text that its type can give is possible.
    open spec fn has_phone_number(&self, t: Option<Seq<char>>) -> bool {
        exists|x: &T| #[trigger] x.has_phone_number(t)
    }

    fn phone_number(&self) -> (r: Option<Cow<'_, str>>) {
        ref_mut_contents(self).phone_number()
    }
}

} // verus!
