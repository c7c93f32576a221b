mod email;
mod email_addresses;
mod index_collections;
mod length;
mod phone_number;
mod range;
mod regexes;
mod urls;

pub use email::{is_email_outcome, validate_email_value, EmailError, EmailOptions, ValidateEmail};
pub use email_addresses::{
    cow_text, cow_text_view, email_address_as_text, email_address_failure,
    email_address_parse_outcome,
    email_address_violation, email_error_kind, is_email_address_outcome,
    validate_email_address_value, EmailAddressError, EmailAddressErrorKind, EmailAddressOptions,
    ValidateEmailAddress,
};
pub use length::{
    is_length_error, is_length_outcome, length_message, length_violation, validate_length_value,
    LengthBound, LengthError, ValidateLength,
};
pub use range::{
    is_range_error, is_range_outcome, range_message, range_violation, validate_range_value,
    RangeBound, RangeError, ValidateRange,
};
pub use urls::{
    is_url_error, is_url_outcome, url_as_text, url_parse_outcome, url_violation,
    validate_url_value, UrlError, UrlParseErrorKind, ValidateUrl,
};
pub use regexes::{
    is_no_match_error, is_regex_outcome, is_regex_validation, regex_match_outcome, regex_outcome,
    validate_regex_value, AsRegex, RegexError, ValidateRegex,
};
pub use phone_number::{
    check_phone_number_country, country_allowed, country_code_text, country_codes_text,
    disallowed_country_message, is_country_code, is_country_outcome, is_phone_number_outcome,
    is_phone_parse_error, joined, phone_number_display, phone_number_parse_outcome,
    validate_phone_number_value, PhoneNumberError, PhoneNumberParseErrorKind, ValidatePhoneNumber,
};
