use url::ParseError;
use fortifier::{
    EmailAddressError, EmailAddressErrorCode, EmailAddressErrorKind, EmailAddressOptions,
    EmailError, LengthErrorCode, MustBeStrVisitor, PhoneNumberCountry, PhoneNumberError,
    PhoneNumberErrorCode, PhoneNumberParseErrorKind, RangeErrorCode, RegexError,
    RegexErrorCode, UrlError, UrlParseErrorKind, ValidateEmail, ValidateEmailAddress,
    ValidatePhoneNumber, ValidateUrl,
};

#[test]
fn email_errors_by_kind() {
    let options = EmailAddressOptions::default();
    assert_eq!(
        "@example.com".validate_email_address(options),
        Err(EmailAddressError::from_kind(EmailAddressErrorKind::LocalPartEmpty))
    );
    assert_eq!(
        "admin@".validate_email(options),
        Err(EmailError::from_kind(EmailAddressErrorKind::DomainEmpty))
    );
    assert_eq!(
        "admin@localhost".validate_email(options.with_required_tld()),
        Err(EmailError::DomainTooFew { message: String::new() })
    );
    assert_eq!("admin@localhost".validate_email(options.with_required_tld().with_no_minimum_sub_domains()), Ok(()));
    assert_eq!(
        "Admin <admin@example.com>".validate_email_address(options.without_display_text()),
        Err(EmailAddressError::UnsupportedDisplayName {
            code: EmailAddressErrorCode,
            message: String::new(),
        })
    );
    assert_eq!(
        "Admin <admin@example.com>".validate_email_address(options.with_display_text()),
        Ok(())
    );
}

#[test]
fn email_options_builders() {
    let options = EmailAddressOptions::default();
    assert_eq!(options.minimum_sub_domains, 0);
    assert!(options.allow_domain_literal && options.allow_display_text);
    assert_eq!(options.with_minimum_sub_domains(3).minimum_sub_domains, 3);
    assert!(!options.without_domain_literal().allow_domain_literal);
    assert!(options.without_domain_literal().with_domain_literal().allow_domain_literal);
}

#[test]
fn url_errors_by_kind() {
    assert_eq!(
        "localhost".validate_url(),
        Err(UrlError::RelativeUrlWithoutBase {
            message: "relative URL without a base".to_owned()
        })
    );
    assert_eq!(
        "http://localhost:99999".validate_url(),
        Err(UrlError::from_kind(UrlParseErrorKind::InvalidPort, ParseError::InvalidPort.to_string()))
    );
    assert_eq!(
        "http://[::1".validate_url(),
        Err(UrlError::InvalidIpv6Address { message: "invalid IPv6 address".to_owned() })
    );
    assert_eq!("https://example.com/a?b=c".validate_url(), Ok(()));
}

#[test]
fn phone_number_country_checks() {
    assert_eq!(
        "+44 20 7946 0000".validate_phone_number(
            None,
            Some(vec![PhoneNumberCountry::NL, PhoneNumberCountry::DE])
        ),
        Err(PhoneNumberError::DisallowedCountryCode {
            code: PhoneNumberErrorCode,
            allowed: vec![PhoneNumberCountry::NL, PhoneNumberCountry::DE],
            value: Some(PhoneNumberCountry::GB),
            message: "country code `GB` is not allowed, must be one of `NL, DE`".to_owned(),
        })
    );
    assert_eq!(
        "+44 20 7946 0000".validate_phone_number(
            None,
            Some(vec![PhoneNumberCountry::NL, PhoneNumberCountry::GB])
        ),
        Ok(())
    );
    assert_eq!(
        "020 7946 0000".validate_phone_number(Some(PhoneNumberCountry::GB), None),
        Ok(())
    );
    assert_eq!(
        "".validate_phone_number(None, None),
        Err(PhoneNumberError::from_kind(PhoneNumberParseErrorKind::NoNumber))
    );
}

#[test]
fn error_codes() {
    assert_eq!(LengthErrorCode.as_str(), "length");
    assert_eq!(&*RangeErrorCode, "range");
    assert_eq!(RegexErrorCode.as_str(), "regex");
    assert_eq!(EmailAddressErrorCode.as_str(), "emailAddress");
    assert_eq!(&*PhoneNumberErrorCode, "phoneNumber");
    assert_eq!(
        RegexError::default().message,
        "value does not match regular expression"
    );
}

#[test]
fn must_be_str_visitor() {
    let visitor = MustBeStrVisitor("nested");
    assert_eq!(visitor.visit_str("nested"), Ok(()));
    assert_eq!(visitor.visit_str("nest"), Err(()));
    assert_eq!(visitor.visit_str("nested!"), Err(()));
}

#[test]
fn email_address_error_kinds_follow_the_parser() {
    let options = EmailAddressOptions::default();
    let cases: Vec<(String, EmailAddressErrorKind)> = vec![
        ("".to_owned(), EmailAddressErrorKind::MissingSeparator),
        ("a b@c.d".to_owned(), EmailAddressErrorKind::InvalidCharacter),
        ("a@b..c".to_owned(), EmailAddressErrorKind::SubDomainEmpty),
        (format!("{}@b.c", "a".repeat(65)), EmailAddressErrorKind::LocalPartTooLong),
        (format!("a@{}.c", "b".repeat(64)), EmailAddressErrorKind::SubDomainTooLong),
        (
            format!("a@{}", vec!["b".repeat(60); 5].join(".")),
            EmailAddressErrorKind::DomainTooLong,
        ),
        ("<a@b.c>".to_owned(), EmailAddressErrorKind::MissingDisplayName),
        ("Name <a@b.c".to_owned(), EmailAddressErrorKind::MissingEndBracket),
    ];
    for (input, kind) in cases {
        assert_eq!(
            input.validate_email_address(options),
            Err(EmailAddressError::from_kind(kind)),
            "{input}"
        );
        assert_eq!(input.validate_email(options), Err(EmailError::from_kind(kind)), "{input}");
    }
    assert_eq!(
        "a@[1.2.3.4]".validate_email_address(options.without_domain_literal()),
        Err(EmailAddressError::UnsupportedDomainLiteral {
            code: EmailAddressErrorCode,
            message: String::new(),
        })
    );
    assert_eq!("a@[1.2.3.4]".validate_email_address(options), Ok(()));
}

#[test]
fn url_and_phone_error_kinds_follow_the_parsers() {
    assert_eq!(
        "http://1.2.3.256".validate_url(),
        Err(UrlError::InvalidIpv4Address { message: "invalid IPv4 address".to_owned() })
    );
    assert_eq!(
        "http://a b".validate_url(),
        Err(UrlError::IdnaError { message: "invalid international domain name".to_owned() })
    );
    assert_eq!(
        "+999 1234 5678".validate_phone_number(None, None),
        Err(PhoneNumberError::from_kind(PhoneNumberParseErrorKind::InvalidCountryCode))
    );
    assert_eq!(
        "+44 12345678901234567890".validate_phone_number(None, None),
        Err(PhoneNumberError::TooLong {
            code: PhoneNumberErrorCode,
            message: "too long".to_owned(),
        })
    );
    assert_eq!(
        "+800 1234 5678".validate_phone_number(None, Some(vec![PhoneNumberCountry::NL])),
        Err(PhoneNumberError::DisallowedCountryCode {
            code: PhoneNumberErrorCode,
            allowed: vec![PhoneNumberCountry::NL],
            value: None,
            message: "unknown country code, must be one of `NL`".to_owned(),
        })
    );
}
