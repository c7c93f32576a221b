//! URL validation.

use vstd::prelude::*;

use super::email_addresses::{cow_text, cow_text_view};
use crate::std_items::{ref_contents, ref_mut_contents};

use std::borrow::Cow;
use url::ParseError as P;

verus! {

use UrlParseErrorKind as UrlKind;

/// URL validation error.
#[derive(Debug, PartialEq, Eq)]
pub enum UrlError {
    /// Empty host error.
    EmptyHost {
        /// A human-readable error message.
        message: String,
    },
    /// Invalid international domain name error.
    IdnaError {
        /// A human-readable error message.
        message: String,
    },
    /// Invalid port error.
    InvalidPort {
        /// A human-readable error message.
        message: String,
    },
    /// Invalid IPv4 address error.
    InvalidIpv4Address {
        /// A human-readable error message.
        message: String,
    },
    /// Invalid IPv6 address error.
    InvalidIpv6Address {
        /// A human-readable error message.
        message: String,
    },
    /// Invalid domain character error.
    InvalidDomainCharacter {
        /// A human-readable error message.
        message: String,
    },
    /// Relative URL without base error.
    RelativeUrlWithoutBase {
        /// A human-readable error message.
        message: String,
    },
    /// Relative URL with cannot-be-a-base base error.
    RelativeUrlWithCannotBeABaseBase {
        /// A human-readable error message.
        message: String,
    },
    /// Set host on cannot-be-a-base URL error.
    SetHostOnCannotBeABaseUrl {
        /// A human-readable error message.
        message: String,
    },
    /// Overflow error.
    Overflow {
        /// A human-readable error message.
        message: String,
    },
    /// Unknown error.
    Unknown {
        /// A human-readable error message.
        message: String,
    },
}

/// The ways in which parsing a URL can fail: the variants of `url::ParseError`, and `Other` for
/// any variant that a later version of `url` adds.
#[derive(Debug, Clone, Copy, PartialEq, Eq, Structural)]
pub enum UrlParseErrorKind {
    /// Empty host.
    EmptyHost,
    /// Invalid international domain name.
    IdnaError,
    /// Invalid port.
    InvalidPort,
    /// Invalid IPv4 address.
    InvalidIpv4Address,
    /// Invalid IPv6 address.
    InvalidIpv6Address,
    /// Invalid domain character.
    InvalidDomainCharacter,
    /// Relative URL without base.
    RelativeUrlWithoutBase,
    /// Relative URL with cannot-be-a-base base.
    RelativeUrlWithCannotBeABaseBase,
    /// Set host on cannot-be-a-base URL.
    SetHostOnCannotBeABaseUrl,
    /// Overflow.
    Overflow,
    /// A failure of another kind.
    Other,
}

/// What `url::Url::parse` gives for an input: `Ok` when it parses, else the kind of its
/// `url::ParseError` with the text that the error displays.
pub uninterp spec fn url_parse_outcome(input: Seq<char>) -> Result<(), (UrlParseErrorKind, Seq<char>)>;

/// `url::Url::parse`, with the kind and the displayed text of its error. What it gives is named
/// by [`url_parse_outcome`] as a function of the input.
#[verifier::external_body]
fn parse_url(input: &str) -> (r: Result<(), (UrlParseErrorKind, String)>)
    ensures
        match r {
            Ok(()) => url_parse_outcome(input@) is Ok,
            Err((kind, text)) => url_parse_outcome(input@) == Err::<(), (UrlParseErrorKind, Seq<char>)>((kind, text@)),
        },
{
    let e = match url::Url::parse(input) {
        Ok(_) => return Ok(()),
        Err(e) => e,
    };
    let kind = match e {
        P::EmptyHost => UrlKind::EmptyHost, P::IdnaError => UrlKind::IdnaError,
        P::InvalidPort => UrlKind::InvalidPort, P::Overflow => UrlKind::Overflow,
        P::InvalidIpv4Address => UrlKind::InvalidIpv4Address,
        P::InvalidIpv6Address => UrlKind::InvalidIpv6Address,
        P::InvalidDomainCharacter => UrlKind::InvalidDomainCharacter,
        P::RelativeUrlWithoutBase => UrlKind::RelativeUrlWithoutBase,
        P::RelativeUrlWithCannotBeABaseBase => UrlKind::RelativeUrlWithCannotBeABaseBase,
        P::SetHostOnCannotBeABaseUrl => UrlKind::SetHostOnCannotBeABaseUrl, _ => UrlKind::Other,
    };
    Err((kind, e.to_string()))
}

/// Whether `e` is the error for a parse failure of kind `k` with the displayed text `message`:
/// the variant of the same name, and `Unknown` for a failure of another kind, carrying the text.
pub open spec fn is_url_error(e: UrlError, k: UrlParseErrorKind, message: Seq<char>) -> bool {
    match k {
        UrlKind::EmptyHost => e matches UrlError::EmptyHost { message: m } && m@ == message,
        UrlKind::IdnaError => e matches UrlError::IdnaError { message: m } && m@ == message,
        UrlKind::InvalidPort => e matches UrlError::InvalidPort { message: m } && m@ == message,
        UrlKind::InvalidIpv4Address => e matches UrlError::InvalidIpv4Address { message: m }
            && m@ == message,
        UrlKind::InvalidIpv6Address => e matches UrlError::InvalidIpv6Address { message: m }
            && m@ == message,
        UrlKind::InvalidDomainCharacter => e matches UrlError::InvalidDomainCharacter { message: m }
            && m@ == message,
        UrlKind::RelativeUrlWithoutBase => e matches UrlError::RelativeUrlWithoutBase { message: m }
            && m@ == message,
        UrlKind::RelativeUrlWithCannotBeABaseBase => e matches UrlError::RelativeUrlWithCannotBeABaseBase {
            message: m,
        } && m@ == message,
        UrlKind::SetHostOnCannotBeABaseUrl => e matches UrlError::SetHostOnCannotBeABaseUrl {
            message: m,
        } && m@ == message,
        UrlKind::Overflow => e matches UrlError::Overflow { message: m } && m@ == message,
        UrlKind::Other => e matches UrlError::Unknown { message: m } && m@ == message,
    }
}

impl UrlError {
    /// The error for a parse failure of kind `kind`, with the text `message` that the failure
    /// displays.
    pub fn from_kind(kind: UrlParseErrorKind, message: String) -> (r: Self)
        ensures
            is_url_error(r, kind, message@),
    {
        match kind {
            UrlKind::EmptyHost => UrlError::EmptyHost { message },
            UrlKind::IdnaError => UrlError::IdnaError { message },
            UrlKind::InvalidPort => UrlError::InvalidPort { message },
            UrlKind::InvalidIpv4Address => UrlError::InvalidIpv4Address { message },
            UrlKind::InvalidIpv6Address => UrlError::InvalidIpv6Address { message },
            UrlKind::InvalidDomainCharacter => UrlError::InvalidDomainCharacter { message },
            UrlKind::RelativeUrlWithoutBase => UrlError::RelativeUrlWithoutBase { message },
            UrlKind::RelativeUrlWithCannotBeABaseBase => UrlError::RelativeUrlWithCannotBeABaseBase {
                message,
            },
            UrlKind::SetHostOnCannotBeABaseUrl => UrlError::SetHostOnCannotBeABaseUrl { message },
            UrlKind::Overflow => UrlError::Overflow { message },
            UrlKind::Other => UrlError::Unknown { message },
        }
    }
}

/// The parse failure of an (optional) URL, with its displayed text, if any. An absent URL has
/// none.
pub open spec fn url_violation(url: Option<Seq<char>>) -> Option<(UrlParseErrorKind, Seq<char>)> {
    match url {
        None => None,
        Some(u) => match url_parse_outcome(u) {
            Ok(_) => None,
            Err(failure) => Some(failure),
        },
    }
}

/// Whether `r` is the outcome of validating the (optional) URL `url`.
pub open spec fn is_url_outcome(r: Result<(), UrlError>, url: Option<Seq<char>>) -> bool {
    match url_violation(url) {
        None => r is Ok,
        Some((k, m)) => r matches Err(e) && is_url_error(e, k, m),
    }
}

/// Validates an optional URL. An absent URL is valid.
pub fn validate_url_value(url: Option<&str>) -> (r: Result<(), UrlError>)
    ensures
        is_url_outcome(
            r,
            match url {
                Some(u) => Some(u@),
                None => None,
            },
        ),
{
    match url {
        None => Ok(()),
        Some(url) => match parse_url(url) {
            Ok(()) => Ok(()),
            Err((kind, message)) => Err(UrlError::from_kind(kind, message)),
        },
    }
}

/// `url::Url`, a parsed URL.
#[verifier::external_type_specification]
#[verifier::external_body]
pub struct ExUrl(url::Url);

/// The serialization that a `url::Url` holds, as `Url::as_str` gives it.
pub uninterp spec fn url_as_text(url: url::Url) -> Seq<char>;

/// `Url::as_str`: the serialization of the URL, named by [`url_as_text`].
#[verifier::external_body]
fn url_text(url: &url::Url) -> (r: &str)
    ensures
        r@ == url_as_text(*url),
{
    url.as_str()
}

/// Validate a URL.
pub trait ValidateUrl {
    /// Whether `u` is the text of what [`ValidateUrl::url`] gives for this value.
    spec fn has_url(&self, u: Option<Seq<char>>) -> bool;

    /// The URL.
    fn url(&self) -> (r: Option<Cow<'_, str>>)
        ensures
            self.has_url(cow_text_view(r)),
    ;

    /// Validate URL.
    ///
    /// Unless an implementation overrides it, the outcome is that of [`validate_url_value`] on
    /// what [`ValidateUrl::url`] returns.
    fn validate_url(&self) -> (r: Result<(), UrlError>)
        default_ensures
            exists|u: Option<Seq<char>>|
                self.has_url(u) && #[trigger] is_url_outcome(r, u),
    {
        let url = self.url();
        let text = cow_text(&url);
        let r = validate_url_value(text);
        assert(self.has_url(cow_text_view(url)) && is_url_outcome(r, cow_text_view(url)));
        r
    }
}

impl ValidateUrl for str {
    open spec fn has_url(&self, u: Option<Seq<char>>) -> bool {
        u == Some(self@)
    }

    fn url(&self) -> (r: Option<Cow<'_, str>>) {
        Some(Cow::Borrowed(self))
    }
}

impl<'a> ValidateUrl for &'a str {
    open spec fn has_url(&self, u: Option<Seq<char>>) -> bool {
        u == Some(self@)
    }

    fn url(&self) -> (r: Option<Cow<'_, str>>) {
        Some(Cow::Borrowed(*self))
    }
}

impl ValidateUrl for String {
    open spec fn has_url(&self, u: Option<Seq<char>>) -> bool {
        u == Some(self@)
    }

    fn url(&self) -> (r: Option<Cow<'_, str>>) {
        Some(Cow::Borrowed(self.as_str()))
    }
}

impl<'a> ValidateUrl for Cow<'a, str> {
    open spec fn has_url(&self, u: Option<Seq<char>>) -> bool {
        u == Some(self@)
    }

    fn url(&self) -> (r: Option<Cow<'_, str>>) {
        match self {
            Cow::Borrowed(s) => Some(Cow::Borrowed(*s)),
            Cow::Owned(s) => Some(Cow::Borrowed(s.as_str())),
        }
    }
}

impl ValidateUrl for url::Url {
    /// The serialization of the URL.
    open spec fn has_url(&self, u: Option<Seq<char>>) -> bool {
        u == Some(url_as_text(*self))
    }

    fn url(&self) -> (r: Option<Cow<'_, str>>) {
        Some(Cow::Borrowed(url_text(self)))
    }

    /// A `Url` has already been parsed, so it is valid.
    fn validate_url(&self) -> (r: Result<(), UrlError>)
        ensures
            r is Ok,
    {
        Ok(())
    }
}

impl<T: ValidateUrl> ValidateUrl for Option<T> {
    open spec fn has_url(&self, u: Option<Seq<char>>) -> bool {
        match self {
            Some(s) => s.has_url(u),
            None => u is None,
        }
    }

    fn url(&self) -> (r: Option<Cow<'_, str>>) {
        match self {
            Some(s) => s.url(),
            None => None,
        }
    }
}

impl<'a, T: ValidateUrl> ValidateUrl for &'a T {
    open spec fn has_url(&self, u: Option<Seq<char>>) -> bool {
        (**self).has_url(u)
    }

    fn url(&self) -> (r: Option<Cow<'_, str>>) {
        (**self).url()
    }
}

impl<T: ValidateUrl> ValidateUrl for Box<T> {
    open spec fn has_url(&self, u: Option<Seq<char>>) -> bool {
        (**self).has_url(u)
    }

    fn url(&self) -> (r: Option<Cow<'_, str>>) {
        (**self).url()
    }
}

impl<T: ValidateUrl> ValidateUrl for std::rc::Rc<T> {
    open spec fn has_url(&self, u: Option<Seq<char>>) -> bool {
        (**self).has_url(u)
    }

    fn url(&self) -> (r: Option<Cow<'_, str>>) {
        (**self).url()
    }
}

impl<T: ValidateUrl> ValidateUrl for std::sync::Arc<T> {
    open spec fn has_url(&self, u: Option<Seq<char>>) -> bool {
        (**self).has_url(u)
    }

    fn url(&self) -> (r: Option<Cow<'_, str>>) {
        (**self).url()
    }
}

impl<'b, T: ValidateUrl> ValidateUrl for std::cell::Ref<'b, T> {
    /// The borrowed value is opaque here, so any text that its type can give is possible.
    open spec fn has_url(&self, u: Option<Seq<char>>) -> bool {
        exists|x: &T| #[trigger] x.has_url(u)
    }

    fn url(&self) -> (r: Option<Cow<'_, str>>) {
        ref_contents(self).url()
    }
}

impl<'b, T: ValidateUrl> ValidateUrl for std::cell::RefMut<'b, T> {
    /// The borrowed value is opaque here, so any text that its type can give is possible.
    open spec fn has_url(&self, u: Option<Seq<char>>) -> bool {
        exists|x: &T| #[trigger] x.has_url(u)
    }

    fn url(&self) -> (r: Option<Cow<'_, str>>) {
        ref_mut_contents(self).url()
    }
}

} // verus!
