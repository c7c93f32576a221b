# fortifier

Validation of values — lengths, ranges, email addresses, URLs, phone numbers and regular
expressions — and of collections of values, with contracts checked by Verus.

- `src/` is the verified library. Each validation has a function on plain values
  (`validate_length_value`, `validate_range_value`, `validate_email_value`, ...) whose contract
  states its outcome exactly, over named results (`url_parse_outcome`, `regex_match_outcome`,
  `phone_number_parse_outcome`, ...) where an outside crate parses or matches. Each validation
  also has a trait (`ValidateLength`, `ValidateRange`, ...) implemented for strings,
  collections, options and smart pointers; each trait ties what its accessor gives to the
  value by a spec relation (`has_length`, `has_range_value`, ...), so its validation method
  states the outcome for each implementing type. `src/laws.rs` states and proves the laws that
  relate them. Parsing of email addresses, URLs and phone numbers, and regular expression
  matching, are done by the `email_address`, `url`, `phonenumber` and `regex` crates, behind
  the trusted items that each module declares.
- `app/` holds what surrounds the library: asynchronous validation, `serde` support and copies
  of the error types that carry `serde` derives and `Display`.
- `tests/` holds the tests.
