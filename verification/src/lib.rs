//! Fortifier: composable validation of values, with verified contracts.

mod error;
mod text;
mod bound;
mod error_code;
mod integrations;
mod laws;
mod order_laws;
mod std_items;
mod validate;
mod validations;

pub use error::{IndexedValidationError, KeyedValidationError, ValidationErrors};
pub use bound::{text_order, BoundValue, TextOrder};
pub use error_code::{
    EmailAddressErrorCode, LengthErrorCode, PhoneNumberErrorCode, RangeErrorCode, RegexErrorCode,
};
pub use validations::{
    is_length_error, is_length_outcome, length_message, length_violation, validate_length_value,
    LengthBound, LengthError, ValidateLength,
};
pub use validations::{
    is_range_error, is_range_outcome, range_message, range_violation, validate_range_value,
    RangeBound, RangeError, ValidateRange,
};
pub use validate::{
    clones_of, collect_indexed_errors, collect_keyed_errors, indexed_errors, keyed_errors,
    lemma_indexed_errors_indices, outcome_errors, Validate, ValidateWithContext,
};
pub use validations::{
    cow_text, cow_text_view, email_address_as_text, email_address_failure,
    email_address_parse_outcome, email_address_violation, email_error_kind, is_email_address_outcome, is_email_outcome,
    validate_email_address_value, validate_email_value, EmailAddressError, EmailAddressErrorKind,
    EmailAddressOptions, EmailError, EmailOptions, ValidateEmail, ValidateEmailAddress,
};
pub use validations::{
    is_url_error, is_url_outcome, url_as_text, url_parse_outcome, url_violation,
    validate_url_value, UrlError, UrlParseErrorKind, ValidateUrl,
};
pub use validations::{
    is_no_match_error, is_regex_outcome, is_regex_validation, regex_match_outcome, regex_outcome,
    validate_regex_value, AsRegex, RegexError, ValidateRegex,
};
pub use integrations::serde;
pub use integrations::serde::MustBeStrVisitor;
pub use validations::{
    check_phone_number_country, country_allowed, country_code_text, country_codes_text,
    disallowed_country_message, is_country_code, is_country_outcome, is_phone_number_outcome,
    is_phone_parse_error, joined, phone_number_display, phone_number_parse_outcome,
    validate_phone_number_value, PhoneNumberError, PhoneNumberParseErrorKind, ValidatePhoneNumber,
};

/// A country of the CLDR, as phone numbers are checked against.
pub use phonenumber::country::Id as PhoneNumberCountry;
pub use order_laws::{
    digits_value, law_decimal_numeral, law_length_order_char, law_length_order_i128,
    law_length_order_i16, law_length_order_i32, law_length_order_i64, law_length_order_i8,
    law_length_order_isize, law_length_order_u128, law_length_order_u16, law_length_order_u32,
    law_length_order_u64, law_length_order_u8, law_length_order_usize, law_range_order_bool,
    law_range_order_char, law_range_order_i128, law_range_order_i16, law_range_order_i32,
    law_range_order_i64, law_range_order_i8, law_range_order_isize, law_range_order_str,
    law_range_order_string, law_range_order_u128, law_range_order_u16, law_range_order_u32,
    law_range_order_u64, law_range_order_u8, law_range_order_usize, law_signed_decimal_numeral,
    law_text_numeral_i128, law_text_numeral_i16, law_text_numeral_i32, law_text_numeral_i64,
    law_text_numeral_i8, law_text_numeral_isize, law_text_numeral_u128, law_text_numeral_u16,
    law_text_numeral_u32, law_text_numeral_u64, law_text_numeral_u8, law_text_numeral_usize,
    law_text_order_lexicographic,
};
pub use laws::{
    error_count, law_absent_value_is_valid, law_email_validations_agree, law_error_kinds_distinct,
    law_indexed_errors_count, law_indexed_errors_empty_iff_all_valid,
    law_keyed_errors_empty_iff_all_valid, law_length_loosening, law_length_valid_iff_within_bounds,
    law_phone_allowed_widening, law_range_loosening, law_range_valid_iff_within_bounds,
    law_text_order_total, law_text_order_transitive, lower_no_tighter, upper_no_tighter,
};
