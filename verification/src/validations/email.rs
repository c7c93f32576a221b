//! Email validation.

use vstd::prelude::*;

use super::email_addresses::{
    cow_text, cow_text_view, email_address_as_text, email_address_failure, email_address_text,
    email_address_violation, EmailAddressErrorKind, EmailAddressOptions,
};
use crate::std_items::{ref_contents, ref_mut_contents};

use std::borrow::Cow;

verus! {

/// Options for parsing an email address.
pub type EmailOptions = EmailAddressOptions;

/// Email validation error.
#[derive(Debug, PartialEq, Eq)]
pub enum EmailError {
    /// Invalid character error.
    InvalidCharacter {
        /// A human-readable error message.
        message: String,
    },
    /// Missing separator error.
    MissingSeparator {
        /// A human-readable error message.
        message: String,
    },
    /// Locale part empty error.
    LocalPartEmpty {
        /// A human-readable error message.
        message: String,
    },
    /// Local part too long error.
    LocalPartTooLong {
        /// A human-readable error message.
        message: String,
    },
    /// Domain empty error.
    DomainEmpty {
        /// A human-readable error message.
        message: String,
    },
    /// Domain too long error.
    DomainTooLong {
        /// A human-readable error message.
        message: String,
    },
    /// Subdomain empty error.
    SubDomainEmpty {
        /// A human-readable error message.
        message: String,
    },
    /// Subdomain too long error.
    SubDomainTooLong {
        /// A human-readable error message.
        message: String,
    },
    /// Domain too few error.
    DomainTooFew {
        /// A human-readable error message.
        message: String,
    },
    /// Domain invalid separator error.
    DomainInvalidSeparator {
        /// A human-readable error message.
        message: String,
    },
    /// Unbalanced quotes error.
    UnbalancedQuotes {
        /// A human-readable error message.
        message: String,
    },
    /// Invalid comment error.
    InvalidComment {
        /// A human-readable error message.
        message: String,
    },
    /// Invalid IP Address error.
    InvalidIPAddress {
        /// A human-readable error message.
        message: String,
    },
    /// Unsupported domain literal error.
    UnsupportedDomainLiteral {
        /// A human-readable error message.
        message: String,
    },
    /// Unsupported display name error.
    UnsupportedDisplayName {
        /// A human-readable error message.
        message: String,
    },
    /// Missing display name error.
    MissingDisplayName {
        /// A human-readable error message.
        message: String,
    },
    /// Missing end bracket error.
    MissingEndBracket {
        /// A human-readable error message.
        message: String,
    },
}

impl EmailError {
    /// The kind of parse failure that the error reports.
    pub open spec fn spec_kind(&self) -> EmailAddressErrorKind {
        match self {
            EmailError::InvalidCharacter { .. } => EmailAddressErrorKind::InvalidCharacter,
            EmailError::MissingSeparator { .. } => EmailAddressErrorKind::MissingSeparator,
            EmailError::LocalPartEmpty { .. } => EmailAddressErrorKind::LocalPartEmpty,
            EmailError::LocalPartTooLong { .. } => EmailAddressErrorKind::LocalPartTooLong,
            EmailError::DomainEmpty { .. } => EmailAddressErrorKind::DomainEmpty,
            EmailError::DomainTooLong { .. } => EmailAddressErrorKind::DomainTooLong,
            EmailError::SubDomainEmpty { .. } => EmailAddressErrorKind::SubDomainEmpty,
            EmailError::SubDomainTooLong { .. } => EmailAddressErrorKind::SubDomainTooLong,
            EmailError::DomainTooFew { .. } => EmailAddressErrorKind::DomainTooFew,
            EmailError::DomainInvalidSeparator { .. } => EmailAddressErrorKind::DomainInvalidSeparator,
            EmailError::UnbalancedQuotes { .. } => EmailAddressErrorKind::UnbalancedQuotes,
            EmailError::InvalidComment { .. } => EmailAddressErrorKind::InvalidComment,
            EmailError::InvalidIPAddress { .. } => EmailAddressErrorKind::InvalidIPAddress,
            EmailError::UnsupportedDomainLiteral { .. } => EmailAddressErrorKind::UnsupportedDomainLiteral,
            EmailError::UnsupportedDisplayName { .. } => EmailAddressErrorKind::UnsupportedDisplayName,
            EmailError::MissingDisplayName { .. } => EmailAddressErrorKind::MissingDisplayName,
            EmailError::MissingEndBracket { .. } => EmailAddressErrorKind::MissingEndBracket,
        }
    }

    /// The message of the error.
    pub open spec fn spec_message(&self) -> Seq<char> {
        match self {
            EmailError::InvalidCharacter { message, .. } => message@,
            EmailError::MissingSeparator { message, .. } => message@,
            EmailError::LocalPartEmpty { message, .. } => message@,
            EmailError::LocalPartTooLong { message, .. } => message@,
            EmailError::DomainEmpty { message, .. } => message@,
            EmailError::DomainTooLong { message, .. } => message@,
            EmailError::SubDomainEmpty { message, .. } => message@,
            EmailError::SubDomainTooLong { message, .. } => message@,
            EmailError::DomainTooFew { message, .. } => message@,
            EmailError::DomainInvalidSeparator { message, .. } => message@,
            EmailError::UnbalancedQuotes { message, .. } => message@,
            EmailError::InvalidComment { message, .. } => message@,
            EmailError::InvalidIPAddress { message, .. } => message@,
            EmailError::UnsupportedDomainLiteral { message, .. } => message@,
            EmailError::UnsupportedDisplayName { message, .. } => message@,
            EmailError::MissingDisplayName { message, .. } => message@,
            EmailError::MissingEndBracket { message, .. } => message@,
        }
    }
}

impl EmailError {
    /// The error for a kind of parse failure, with an empty message.
    pub fn from_kind(value: EmailAddressErrorKind) -> (r: Self)
        ensures
            r.spec_kind() == value,
            r.spec_message() == Seq::<char>::empty(),
    {
        let message = String::new();
        match value {
            EmailAddressErrorKind::InvalidCharacter => EmailError::InvalidCharacter { message },
            EmailAddressErrorKind::MissingSeparator => EmailError::MissingSeparator { message },
            EmailAddressErrorKind::LocalPartEmpty => EmailError::LocalPartEmpty { message },
            EmailAddressErrorKind::LocalPartTooLong => EmailError::LocalPartTooLong { message },
            EmailAddressErrorKind::DomainEmpty => EmailError::DomainEmpty { message },
            EmailAddressErrorKind::DomainTooLong => EmailError::DomainTooLong { message },
            EmailAddressErrorKind::SubDomainEmpty => EmailError::SubDomainEmpty { message },
            EmailAddressErrorKind::SubDomainTooLong => EmailError::SubDomainTooLong { message },
            EmailAddressErrorKind::DomainTooFew => EmailError::DomainTooFew { message },
            EmailAddressErrorKind::DomainInvalidSeparator => EmailError::DomainInvalidSeparator { message },
            EmailAddressErrorKind::UnbalancedQuotes => EmailError::UnbalancedQuotes { message },
            EmailAddressErrorKind::InvalidComment => EmailError::InvalidComment { message },
            EmailAddressErrorKind::InvalidIPAddress => EmailError::InvalidIPAddress { message },
            EmailAddressErrorKind::UnsupportedDomainLiteral => EmailError::UnsupportedDomainLiteral { message },
            EmailAddressErrorKind::UnsupportedDisplayName => EmailError::UnsupportedDisplayName { message },
            EmailAddressErrorKind::MissingDisplayName => EmailError::MissingDisplayName { message },
            EmailAddressErrorKind::MissingEndBracket => EmailError::MissingEndBracket { message },
        }
    }
}

/// Whether `r` is the outcome of validating the (optional) email address `email`.
pub open spec fn is_email_outcome(
    r: Result<(), EmailError>,
    email: Option<Seq<char>>,
    options: EmailOptions,
) -> bool {
    match email_address_violation(email, options) {
        None => r is Ok,
        Some(k) => r matches Err(e) && e.spec_kind() == k && e.spec_message() == Seq::<char>::empty(),
    }
}

/// Validates an optional email address. An absent address is valid.
pub fn validate_email_value(email: Option<&str>, options: EmailOptions) -> (r: Result<
    (),
    EmailError,
>)
    ensures
        is_email_outcome(
            r,
            match email {
                Some(e) => Some(e@),
                None => None,
            },
            options,
        ),
{
    match email {
        None => Ok(()),
        Some(email) => match email_address_failure(email, options) {
            None => Ok(()),
            Some(kind) => Err(EmailError::from_kind(kind)),
        },
    }
}

/// Validate an email address.
pub trait ValidateEmail {
    /// Whether `e` is the text of what [`ValidateEmail::email`] gives for this value.
    spec fn has_email(&self, e: Option<Seq<char>>) -> bool;

    /// The email address.
    fn email(&self) -> (r: Option<Cow<'_, str>>)
        ensures
            self.has_email(cow_text_view(r)),
    ;

    /// Validate email address.
    ///
    /// The outcome is that of [`validate_email_value`] on what [`ValidateEmail::email`] returns.
    fn validate_email(&self, options: EmailOptions) -> (r: Result<(), EmailError>)
        ensures
            exists|e: Option<Seq<char>>|
                self.has_email(e) && #[trigger] is_email_outcome(r, e, options),
    {
        let email = self.email();
        let text = cow_text(&email);
        let r = validate_email_value(text, options);
        assert(self.has_email(cow_text_view(email)) && is_email_outcome(r, cow_text_view(email), options));
        r
    }
}

impl ValidateEmail for str {
    open spec fn has_email(&self, e: Option<Seq<char>>) -> bool {
        e == Some(self@)
    }

    fn email(&self) -> (r: Option<Cow<'_, str>>) {
        Some(Cow::Borrowed(self))
    }
}

impl<'a> ValidateEmail for &'a str {
    open spec fn has_email(&self, e: Option<Seq<char>>) -> bool {
        e == Some(self@)
    }

    fn email(&self) -> (r: Option<Cow<'_, str>>) {
        Some(Cow::Borrowed(*self))
    }
}

impl ValidateEmail for String {
    open spec fn has_email(&self, e: Option<Seq<char>>) -> bool {
        e == Some(self@)
    }

    fn email(&self) -> (r: Option<Cow<'_, str>>) {
        Some(Cow::Borrowed(self.as_str()))
    }
}

impl<'a> ValidateEmail for Cow<'a, str> {
    open spec fn has_email(&self, e: Option<Seq<char>>) -> bool {
        e == Some(self@)
    }

    fn email(&self) -> (r: Option<Cow<'_, str>>) {
        match self {
            Cow::Borrowed(s) => Some(Cow::Borrowed(*s)),
            Cow::Owned(s) => Some(Cow::Borrowed(s.as_str())),
        }
    }
}

impl ValidateEmail for email_address::EmailAddress {
    /// The text of the address.
    open spec fn has_email(&self, e: Option<Seq<char>>) -> bool {
        e == Some(email_address_as_text(*self))
    }

    fn email(&self) -> (r: Option<Cow<'_, str>>) {
        Some(Cow::Borrowed(email_address_text(self)))
    }
}

impl<T: ValidateEmail> ValidateEmail for Option<T> {
    open spec fn has_email(&self, e: Option<Seq<char>>) -> bool {
        match self {
            Some(s) => s.has_email(e),
            None => e is None,
        }
    }

    fn email(&self) -> (r: Option<Cow<'_, str>>) {
        match self {
            Some(s) => s.email(),
            None => None,
        }
    }
}

impl<'a, T: ValidateEmail> ValidateEmail for &'a T {
    open spec fn has_email(&self, e: Option<Seq<char>>) -> bool {
        (**self).has_email(e)
    }

    fn email(&self) -> (r: Option<Cow<'_, str>>) {
        (**self).email()
    }
}

impl<T: ValidateEmail> ValidateEmail for Box<T> {
    open spec fn has_email(&self, e: Option<Seq<char>>) -> bool {
        (**self).has_email(e)
    }

    fn email(&self) -> (r: Option<Cow<'_, str>>) {
        (**self).email()
    }
}

impl<T: ValidateEmail> ValidateEmail for std::rc::Rc<T> {
    open spec fn has_email(&self, e: Option<Seq<char>>) -> bool {
        (**self).has_email(e)
    }

    fn email(&self) -> (r: Option<Cow<'_, str>>) {
        (**self).email()
    }
}

impl<T: ValidateEmail> ValidateEmail for std::sync::Arc<T> {
    open spec fn has_email(&self, e: Option<Seq<char>>) -> bool {
        (**self).has_email(e)
    }

    fn email(&self) -> (r: Option<Cow<'_, str>>) {
        (**self).email()
    }
}

impl<'b, T: ValidateEmail> ValidateEmail for std::cell::Ref<'b, T> {
    /// The borrowed value is opaque here, so any text that its type can give is possible.
    open spec fn has_email(&self, e: Option<Seq<char>>) -> bool {
        exists|x: &T| #[trigger] x.has_email(e)
    }

    fn email(&self) -> (r: Option<Cow<'_, str>>) {
        ref_contents(self).email()
    }
}

impl<'b, T: ValidateEmail> ValidateEmail for std::cell::RefMut<'b, T> {
    /// The borrowed value is opaque here, so any text that its type can give is possible.
    open spec fn has_email(&self, e: Option<Seq<char>>) -> bool {
        exists|x: &T| #[trigger] x.has_email(e)
    }

    fn email(&self) -> (r: Option<Cow<'_, str>>) {
        ref_mut_contents(self).email()
    }
}

} // verus!
