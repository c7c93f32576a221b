//! Email address validation.

use vstd::prelude::*;

use crate::error_code::EmailAddressErrorCode;
use crate::std_items::{ref_contents, ref_mut_contents};

use std::borrow::Cow;

verus! {

/// Options for parsing an email address.
#[derive(Debug, Clone, Copy, PartialEq, Eq, Structural)]
pub struct EmailAddressOptions {
    /// The minimum number of domain segments that must exist.
    pub minimum_sub_domains: usize,
    /// Whether domain literals are allowed.
    pub allow_domain_literal: bool,
    /// Whether display text is allowed.
    pub allow_display_text: bool,
}

impl Default for EmailAddressOptions {
    /// No minimum of domain segments; domain literals and display text allowed.
    fn default() -> (r: Self)
        ensures
            r == (EmailAddressOptions {
                minimum_sub_domains: 0,
                allow_domain_literal: true,
                allow_display_text: true,
            }),
    {
        EmailAddressOptions {
            minimum_sub_domains: 0,
            allow_domain_literal: true,
            allow_display_text: true,
        }
    }
}

impl EmailAddressOptions {
    /// Set the value of `minimum_sub_domains`.
    pub fn with_minimum_sub_domains(self, min: usize) -> (r: Self)
        ensures
            r == (EmailAddressOptions { minimum_sub_domains: min, ..self }),
    {
        EmailAddressOptions { minimum_sub_domains: min, ..self }
    }

    /// Set the value of `minimum_sub_domains` to zero.
    pub fn with_no_minimum_sub_domains(self) -> (r: Self)
        ensures
            r == (EmailAddressOptions { minimum_sub_domains: 0, ..self }),
    {
        EmailAddressOptions { minimum_sub_domains: 0, ..self }
    }

    /// Set the value of `minimum_sub_domains` to two, requiring a top-level domain.
    pub fn with_required_tld(self) -> (r: Self)
        ensures
            r == (EmailAddressOptions { minimum_sub_domains: 2, ..self }),
    {
        EmailAddressOptions { minimum_sub_domains: 2, ..self }
    }

    /// Set the value of `allow_domain_literal` to `true`.
    pub fn with_domain_literal(self) -> (r: Self)
        ensures
            r == (EmailAddressOptions { allow_domain_literal: true, ..self }),
    {
        EmailAddressOptions { allow_domain_literal: true, ..self }
    }

    /// Set the value of `allow_domain_literal` to `false`.
    pub fn without_domain_literal(self) -> (r: Self)
        ensures
            r == (EmailAddressOptions { allow_domain_literal: false, ..self }),
    {
        EmailAddressOptions { allow_domain_literal: false, ..self }
    }

    /// Set the value of `allow_display_text` to `true`.
    pub fn with_display_text(self) -> (r: Self)
        ensures
            r == (EmailAddressOptions { allow_display_text: true, ..self }),
    {
        EmailAddressOptions { allow_display_text: true, ..self }
    }

    /// Set the value of `allow_display_text` to `false`.
    pub fn without_display_text(self) -> (r: Self)
        ensures
            r == (EmailAddressOptions { allow_display_text: false, ..self }),
    {
        EmailAddressOptions { allow_display_text: false, ..self }
    }
}

/// The ways in which parsing an email address can fail.
#[derive(Debug, Clone, Copy, PartialEq, Eq, Structural)]
pub enum EmailAddressErrorKind {
    /// Invalid character.
    InvalidCharacter,
    /// Missing separator.
    MissingSeparator,
    /// Locale part empty.
    LocalPartEmpty,
    /// Local part too long.
    LocalPartTooLong,
    /// Domain empty.
    DomainEmpty,
    /// Domain too long.
    DomainTooLong,
    /// Subdomain empty.
    SubDomainEmpty,
    /// Subdomain too long.
    SubDomainTooLong,
    /// Domain too few.
    DomainTooFew,
    /// Domain invalid separator.
    DomainInvalidSeparator,
    /// Unbalanced quotes.
    UnbalancedQuotes,
    /// Invalid comment.
    InvalidComment,
    /// Invalid IP Address.
    InvalidIPAddress,
    /// Unsupported domain literal.
    UnsupportedDomainLiteral,
    /// Unsupported display name.
    UnsupportedDisplayName,
    /// Missing display name.
    MissingDisplayName,
    /// Missing end bracket.
    MissingEndBracket,
}

/// The kind of parse failure with the given discriminant (declaration order, from zero).
pub open spec fn email_error_kind(d: u8) -> EmailAddressErrorKind {
    match d {
        0 => EmailAddressErrorKind::InvalidCharacter,
        1 => EmailAddressErrorKind::MissingSeparator,
        2 => EmailAddressErrorKind::LocalPartEmpty,
        3 => EmailAddressErrorKind::LocalPartTooLong,
        4 => EmailAddressErrorKind::DomainEmpty,
        5 => EmailAddressErrorKind::DomainTooLong,
        6 => EmailAddressErrorKind::SubDomainEmpty,
        7 => EmailAddressErrorKind::SubDomainTooLong,
        8 => EmailAddressErrorKind::DomainTooFew,
        9 => EmailAddressErrorKind::DomainInvalidSeparator,
        10 => EmailAddressErrorKind::UnbalancedQuotes,
        11 => EmailAddressErrorKind::InvalidComment,
        12 => EmailAddressErrorKind::InvalidIPAddress,
        13 => EmailAddressErrorKind::UnsupportedDomainLiteral,
        14 => EmailAddressErrorKind::UnsupportedDisplayName,
        15 => EmailAddressErrorKind::MissingDisplayName,
        _ => EmailAddressErrorKind::MissingEndBracket,
    }
}

fn email_error_kind_of(d: u8) -> (r: EmailAddressErrorKind)
    ensures
        r == email_error_kind(d),
{
    match d {
        0 => EmailAddressErrorKind::InvalidCharacter,
        1 => EmailAddressErrorKind::MissingSeparator,
        2 => EmailAddressErrorKind::LocalPartEmpty,
        3 => EmailAddressErrorKind::LocalPartTooLong,
        4 => EmailAddressErrorKind::DomainEmpty,
        5 => EmailAddressErrorKind::DomainTooLong,
        6 => EmailAddressErrorKind::SubDomainEmpty,
        7 => EmailAddressErrorKind::SubDomainTooLong,
        8 => EmailAddressErrorKind::DomainTooFew,
        9 => EmailAddressErrorKind::DomainInvalidSeparator,
        10 => EmailAddressErrorKind::UnbalancedQuotes,
        11 => EmailAddressErrorKind::InvalidComment,
        12 => EmailAddressErrorKind::InvalidIPAddress,
        13 => EmailAddressErrorKind::UnsupportedDomainLiteral,
        14 => EmailAddressErrorKind::UnsupportedDisplayName,
        15 => EmailAddressErrorKind::MissingDisplayName,
        _ => EmailAddressErrorKind::MissingEndBracket,
    }
}

/// What `email_address::EmailAddress::parse_with_options` gives for an address and options:
/// `Ok` when the address parses, else the discriminant of its `email_address::Error`.
pub uninterp spec fn email_address_parse_outcome(
    address: Seq<char>,
    options: EmailAddressOptions,
) -> Result<(), u8>;

/// `email_address::EmailAddress::parse_with_options`, on the options given field by field.
/// Whether it succeeds, and with which error variant it fails, is named by
/// [`email_address_parse_outcome`] as a function of the address and the options; the error is
/// handed back as the discriminant of `email_address::Error`, a fieldless enum of 17 variants.
#[verifier::external_body]
fn parse_email_address(address: &str, options: EmailAddressOptions) -> (r: Result<(), u8>)
    ensures
        r == email_address_parse_outcome(address@, options),
        r matches Err(d) ==> d < 17,
{
    let options = email_address::Options {
        minimum_sub_domains: options.minimum_sub_domains,
        allow_domain_literal: options.allow_domain_literal,
        allow_display_text: options.allow_display_text,
    };
    match email_address::EmailAddress::parse_with_options(address, options) {
        Ok(_) => Ok(()),
        Err(e) => Err(e as u8),
    }
}

/// The parse failure of an (optional) email address, if any. An absent address has none.
pub open spec fn email_address_violation(
    email: Option<Seq<char>>,
    options: EmailAddressOptions,
) -> Option<EmailAddressErrorKind> {
    match email {
        None => None,
        Some(e) => match email_address_parse_outcome(e, options) {
            Ok(_) => None,
            Err(d) => Some(email_error_kind(d)),
        },
    }
}

/// The parse failure of an email address, if any.
pub fn email_address_failure(email: &str, options: EmailAddressOptions) -> (r: Option<
    EmailAddressErrorKind,
>)
    ensures
        r == email_address_violation(Some(email@), options),
{
    match parse_email_address(email, options) {
        Ok(()) => None,
        Err(d) => Some(email_error_kind_of(d)),
    }
}

/// The view of an optional borrowed-or-owned text.
pub open spec fn cow_text_view(text: Option<Cow<'_, str>>) -> Option<Seq<char>> {
    match text {
        Some(t) => Some(t@),
        None => None,
    }
}

/// The text of an optional borrowed-or-owned string, borrowed.
pub fn cow_text<'a>(text: &'a Option<Cow<'_, str>>) -> (r: Option<&'a str>)
    ensures
        r is Some == text is Some,
        r matches Some(s) ==> cow_text_view(*text) == Some(s@),
{
    match text {
        Some(Cow::Borrowed(s)) => Some(*s),
        Some(Cow::Owned(s)) => Some(s.as_str()),
        None => None,
    }
}

/// `email_address::EmailAddress`, a parsed email address.
#[verifier::external_type_specification]
#[verifier::external_body]
pub struct ExEmailAddress(email_address::EmailAddress);

/// The text that an `email_address::EmailAddress` holds, as `EmailAddress::as_str` gives it.
pub uninterp spec fn email_address_as_text(address: email_address::EmailAddress) -> Seq<char>;

/// `EmailAddress::as_str`: the text of the address, named by [`email_address_as_text`].
#[verifier::external_body]
pub(crate) fn email_address_text(address: &email_address::EmailAddress) -> (r: &str)
    ensures
        r@ == email_address_as_text(*address),
{
    address.as_str()
}

/// Email validation error.
#[derive(Debug, PartialEq, Eq)]
pub enum EmailAddressError {
    /// Invalid character error.
    InvalidCharacter {
        /// The error code.
        code: EmailAddressErrorCode,
        /// A human-readable error message.
        message: String,
    },
    /// Missing separator error.
    MissingSeparator {
        /// The error code.
        code: EmailAddressErrorCode,
        /// A human-readable error message.
        message: String,
    },
    /// Locale part empty error.
    LocalPartEmpty {
        /// The error code.
        code: EmailAddressErrorCode,
        /// A human-readable error message.
        message: String,
    },
    /// Local part too long error.
    LocalPartTooLong {
        /// The error code.
        code: EmailAddressErrorCode,
        /// A human-readable error message.
        message: String,
    },
    /// Domain empty error.
    DomainEmpty {
        /// The error code.
        code: EmailAddressErrorCode,
        /// A human-readable error message.
        message: String,
    },
    /// Domain too long error.
    DomainTooLong {
        /// The error code.
        code: EmailAddressErrorCode,
        /// A human-readable error message.
        message: String,
    },
    /// Subdomain empty error.
    SubDomainEmpty {
        /// The error code.
        code: EmailAddressErrorCode,
        /// A human-readable error message.
        message: String,
    },
    /// Subdomain too long error.
    SubDomainTooLong {
        /// The error code.
        code: EmailAddressErrorCode,
        /// A human-readable error message.
        message: String,
    },
    /// Domain too few error.
    DomainTooFew {
        /// The error code.
        code: EmailAddressErrorCode,
        /// A human-readable error message.
        message: String,
    },
    /// Domain invalid separator error.
    DomainInvalidSeparator {
        /// The error code.
        code: EmailAddressErrorCode,
        /// A human-readable error message.
        message: String,
    },
    /// Unbalanced quotes error.
    UnbalancedQuotes {
        /// The error code.
        code: EmailAddressErrorCode,
        /// A human-readable error message.
        message: String,
    },
    /// Invalid comment error.
    InvalidComment {
        /// The error code.
        code: EmailAddressErrorCode,
        /// A human-readable error message.
        message: String,
    },
    /// Invalid IP Address error.
    InvalidIPAddress {
        /// The error code.
        code: EmailAddressErrorCode,
        /// A human-readable error message.
        message: String,
    },
    /// Unsupported domain literal error.
    UnsupportedDomainLiteral {
        /// The error code.
        code: EmailAddressErrorCode,
        /// A human-readable error message.
        message: String,
    },
    /// Unsupported display name error.
    UnsupportedDisplayName {
        /// The error code.
        code: EmailAddressErrorCode,
        /// A human-readable error message.
        message: String,
    },
    /// Missing display name error.
    MissingDisplayName {
        /// The error code.
        code: EmailAddressErrorCode,
        /// A human-readable error message.
        message: String,
    },
    /// Missing end bracket error.
    MissingEndBracket {
        /// The error code.
        code: EmailAddressErrorCode,
        /// A human-readable error message.
        message: String,
    },
}

impl EmailAddressError {
    /// The kind of parse failure that the error reports.
    pub open spec fn spec_kind(&self) -> EmailAddressErrorKind {
        match self {
            EmailAddressError::InvalidCharacter { .. } => EmailAddressErrorKind::InvalidCharacter,
            EmailAddressError::MissingSeparator { .. } => EmailAddressErrorKind::MissingSeparator,
            EmailAddressError::LocalPartEmpty { .. } => EmailAddressErrorKind::LocalPartEmpty,
            EmailAddressError::LocalPartTooLong { .. } => EmailAddressErrorKind::LocalPartTooLong,
            EmailAddressError::DomainEmpty { .. } => EmailAddressErrorKind::DomainEmpty,
            EmailAddressError::DomainTooLong { .. } => EmailAddressErrorKind::DomainTooLong,
            EmailAddressError::SubDomainEmpty { .. } => EmailAddressErrorKind::SubDomainEmpty,
            EmailAddressError::SubDomainTooLong { .. } => EmailAddressErrorKind::SubDomainTooLong,
            EmailAddressError::DomainTooFew { .. } => EmailAddressErrorKind::DomainTooFew,
            EmailAddressError::DomainInvalidSeparator { .. } => EmailAddressErrorKind::DomainInvalidSeparator,
            EmailAddressError::UnbalancedQuotes { .. } => EmailAddressErrorKind::UnbalancedQuotes,
            EmailAddressError::InvalidComment { .. } => EmailAddressErrorKind::InvalidComment,
            EmailAddressError::InvalidIPAddress { .. } => EmailAddressErrorKind::InvalidIPAddress,
            EmailAddressError::UnsupportedDomainLiteral { .. } => EmailAddressErrorKind::UnsupportedDomainLiteral,
            EmailAddressError::UnsupportedDisplayName { .. } => EmailAddressErrorKind::UnsupportedDisplayName,
            EmailAddressError::MissingDisplayName { .. } => EmailAddressErrorKind::MissingDisplayName,
            EmailAddressError::MissingEndBracket { .. } => EmailAddressErrorKind::MissingEndBracket,
        }
    }

    /// The message of the error.
    pub open spec fn spec_message(&self) -> Seq<char> {
        match self {
            EmailAddressError::InvalidCharacter { message, .. } => message@,
            EmailAddressError::MissingSeparator { message, .. } => message@,
            EmailAddressError::LocalPartEmpty { message, .. } => message@,
            EmailAddressError::LocalPartTooLong { message, .. } => message@,
            EmailAddressError::DomainEmpty { message, .. } => message@,
            EmailAddressError::DomainTooLong { message, .. } => message@,
            EmailAddressError::SubDomainEmpty { message, .. } => message@,
            EmailAddressError::SubDomainTooLong { message, .. } => message@,
            EmailAddressError::DomainTooFew { message, .. } => message@,
            EmailAddressError::DomainInvalidSeparator { message, .. } => message@,
            EmailAddressError::UnbalancedQuotes { message, .. } => message@,
            EmailAddressError::InvalidComment { message, .. } => message@,
            EmailAddressError::InvalidIPAddress { message, .. } => message@,
            EmailAddressError::UnsupportedDomainLiteral { message, .. } => message@,
            EmailAddressError::UnsupportedDisplayName { message, .. } => message@,
            EmailAddressError::MissingDisplayName { message, .. } => message@,
            EmailAddressError::MissingEndBracket { message, .. } => message@,
        }
    }
}

impl EmailAddressError {
    /// The error for a kind of parse failure, with an empty message.
    pub fn from_kind(value: EmailAddressErrorKind) -> (r: Self)
        ensures
            r.spec_kind() == value,
            r.spec_message() == Seq::<char>::empty(),
    {
        let message = String::new();
        match value {
            EmailAddressErrorKind::InvalidCharacter => EmailAddressError::InvalidCharacter { code: EmailAddressErrorCode, message },
            EmailAddressErrorKind::MissingSeparator => EmailAddressError::MissingSeparator { code: EmailAddressErrorCode, message },
            EmailAddressErrorKind::LocalPartEmpty => EmailAddressError::LocalPartEmpty { code: EmailAddressErrorCode, message },
            EmailAddressErrorKind::LocalPartTooLong => EmailAddressError::LocalPartTooLong { code: EmailAddressErrorCode, message },
            EmailAddressErrorKind::DomainEmpty => EmailAddressError::DomainEmpty { code: EmailAddressErrorCode, message },
            EmailAddressErrorKind::DomainTooLong => EmailAddressError::DomainTooLong { code: EmailAddressErrorCode, message },
            EmailAddressErrorKind::SubDomainEmpty => EmailAddressError::SubDomainEmpty { code: EmailAddressErrorCode, message },
            EmailAddressErrorKind::SubDomainTooLong => EmailAddressError::SubDomainTooLong { code: EmailAddressErrorCode, message },
            EmailAddressErrorKind::DomainTooFew => EmailAddressError::DomainTooFew { code: EmailAddressErrorCode, message },
            EmailAddressErrorKind::DomainInvalidSeparator => EmailAddressError::DomainInvalidSeparator { code: EmailAddressErrorCode, message },
            EmailAddressErrorKind::UnbalancedQuotes => EmailAddressError::UnbalancedQuotes { code: EmailAddressErrorCode, message },
            EmailAddressErrorKind::InvalidComment => EmailAddressError::InvalidComment { code: EmailAddressErrorCode, message },
            EmailAddressErrorKind::InvalidIPAddress => EmailAddressError::InvalidIPAddress { code: EmailAddressErrorCode, message },
            EmailAddressErrorKind::UnsupportedDomainLiteral => EmailAddressError::UnsupportedDomainLiteral { code: EmailAddressErrorCode, message },
            EmailAddressErrorKind::UnsupportedDisplayName => EmailAddressError::UnsupportedDisplayName { code: EmailAddressErrorCode, message },
            EmailAddressErrorKind::MissingDisplayName => EmailAddressError::MissingDisplayName { code: EmailAddressErrorCode, message },
            EmailAddressErrorKind::MissingEndBracket => EmailAddressError::MissingEndBracket { code: EmailAddressErrorCode, message },
        }
    }
}

/// Whether `r` is the outcome of validating the (optional) email address `email`.
pub open spec fn is_email_address_outcome(
    r: Result<(), EmailAddressError>,
    email: Option<Seq<char>>,
    options: EmailAddressOptions,
) -> bool {
    match email_address_violation(email, options) {
        None => r is Ok,
        Some(k) => r matches Err(e) && e.spec_kind() == k && e.spec_message() == Seq::<char>::empty(),
    }
}

/// Validates an optional email address. An absent address is valid.
pub fn validate_email_address_value(email: Option<&str>, options: EmailAddressOptions) -> (r: Result<
    (),
    EmailAddressError,
>)
    ensures
        is_email_address_outcome(
            r,
            match email {
                Some(e) => Some(e@),
                None => None,
            },
            options,
        ),
{
    match email {
        None => Ok(()),
        Some(email) => match email_address_failure(email, options) {
            None => Ok(()),
            Some(kind) => Err(EmailAddressError::from_kind(kind)),
        },
    }
}

/// Validate an email address.
pub trait ValidateEmailAddress {
    /// Whether `e` is the text of what [`ValidateEmailAddress::email_address`] gives for this value.
    spec fn has_email_address(&self, e: Option<Seq<char>>) -> bool;

    /// The email address.
    fn email_address(&self) -> (r: Option<Cow<'_, str>>)
        ensures
            self.has_email_address(cow_text_view(r)),
    ;

    /// Validate email address.
    ///
    /// The outcome is that of [`validate_email_address_value`] on what
    /// [`ValidateEmailAddress::email_address`] returns.
    fn validate_email_address(&self, options: EmailAddressOptions) -> (r: Result<
        (),
        EmailAddressError,
    >)
        ensures
            exists|e: Option<Seq<char>>|
                self.has_email_address(e) && #[trigger] is_email_address_outcome(r, e, options),
    {
        let email = self.email_address();
        let text = cow_text(&email);
        let r = validate_email_address_value(text, options);
        assert(self.has_email_address(cow_text_view(email)) && is_email_address_outcome(r, cow_text_view(email), options));
        r
    }
}

impl ValidateEmailAddress for str {
    open spec fn has_email_address(&self, e: Option<Seq<char>>) -> bool {
        e == Some(self@)
    }

    fn email_address(&self) -> (r: Option<Cow<'_, str>>) {
        Some(Cow::Borrowed(self))
    }
}

impl<'a> ValidateEmailAddress for &'a str {
    open spec fn has_email_address(&self, e: Option<Seq<char>>) -> bool {
        e == Some(self@)
    }

    fn email_address(&self) -> (r: Option<Cow<'_, str>>) {
        Some(Cow::Borrowed(*self))
    }
}

impl ValidateEmailAddress for String {
    open spec fn has_email_address(&self, e: Option<Seq<char>>) -> bool {
        e == Some(self@)
    }

    fn email_address(&self) -> (r: Option<Cow<'_, str>>) {
        Some(Cow::Borrowed(self.as_str()))
    }
}

impl<'a> ValidateEmailAddress for Cow<'a, str> {
    open spec fn has_email_address(&self, e: Option<Seq<char>>) -> bool {
        e == Some(self@)
    }

    fn email_address(&self) -> (r: Option<Cow<'_, str>>) {
        match self {
            Cow::Borrowed(s) => Some(Cow::Borrowed(*s)),
            Cow::Owned(s) => Some(Cow::Borrowed(s.as_str())),
        }
    }
}

impl ValidateEmailAddress for email_address::EmailAddress {
    /// The text of the address.
    open spec fn has_email_address(&self, e: Option<Seq<char>>) -> bool {
        e == Some(email_address_as_text(*self))
    }

    fn email_address(&self) -> (r: Option<Cow<'_, str>>) {
        Some(Cow::Borrowed(email_address_text(self)))
    }
}

impl<T: ValidateEmailAddress> ValidateEmailAddress for Option<T> {
    open spec fn has_email_address(&self, e: Option<Seq<char>>) -> bool {
        match self {
            Some(s) => s.has_email_address(e),
            None => e is None,
        }
    }

    fn email_address(&self) -> (r: Option<Cow<'_, str>>) {
        match self {
            Some(s) => s.email_address(),
            None => None,
        }
    }
}

impl<'a, T: ValidateEmailAddress> ValidateEmailAddress for &'a T {
    open spec fn has_email_address(&self, e: Option<Seq<char>>) -> bool {
        (**self).has_email_address(e)
    }

    fn email_address(&self) -> (r: Option<Cow<'_, str>>) {
        (**self).email_address()
    }
}

impl<T: ValidateEmailAddress> ValidateEmailAddress for Box<T> {
    open spec fn has_email_address(&self, e: Option<Seq<char>>) -> bool {
        (**self).has_email_address(e)
    }

    fn email_address(&self) -> (r: Option<Cow<'_, str>>) {
        (**self).email_address()
    }
}

impl<T: ValidateEmailAddress> ValidateEmailAddress for std::rc::Rc<T> {
    open spec fn has_email_address(&self, e: Option<Seq<char>>) -> bool {
        (**self).has_email_address(e)
    }

    fn email_address(&self) -> (r: Option<Cow<'_, str>>) {
        (**self).email_address()
    }
}

impl<T: ValidateEmailAddress> ValidateEmailAddress for std::sync::Arc<T> {
    open spec fn has_email_address(&self, e: Option<Seq<char>>) -> bool {
        (**self).has_email_address(e)
    }

    fn email_address(&self) -> (r: Option<Cow<'_, str>>) {
        (**self).email_address()
    }
}

impl<'b, T: ValidateEmailAddress> ValidateEmailAddress for std::cell::Ref<'b, T> {
    /// The borrowed value is opaque here, so any text that its type can give is possible.
    open spec fn has_email_address(&self, e: Option<Seq<char>>) -> bool {
        exists|x: &T| #[trigger] x.has_email_address(e)
    }

    fn email_address(&self) -> (r: Option<Cow<'_, str>>) {
        ref_contents(self).email_address()
    }
}

impl<'b, T: ValidateEmailAddress> ValidateEmailAddress for std::cell::RefMut<'b, T> {
    /// The borrowed value is opaque here, so any text that its type can give is possible.
    open spec fn has_email_address(&self, e: Option<Seq<char>>) -> bool {
        exists|x: &T| #[trigger] x.has_email_address(e)
    }

    fn email_address(&self) -> (r: Option<Cow<'_, str>>) {
        ref_mut_contents(self).email_address()
    }
}

} // verus!
