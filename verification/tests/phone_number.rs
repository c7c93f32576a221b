use std::{borrow::Cow, cell::RefCell, rc::Rc, str::FromStr, sync::Arc};

use phonenumber::PhoneNumber;

use fortifier::{
    PhoneNumberCountry, PhoneNumberError, PhoneNumberErrorCode, PhoneNumberParseErrorKind,
    ValidatePhoneNumber,
};

#[test]
fn phone_number_ok() {
    assert_eq!(
        (*"+44 20 7946 0000").validate_phone_number(None, None),
        Ok(())
    );
    assert_eq!("+44 20 7946 0000".validate_phone_number(None, None), Ok(()));
    assert_eq!(
        "+44 20 7946 0000"
            .to_owned()
            .validate_phone_number(None, None),
        Ok(())
    );
    assert_eq!(
        Cow::<str>::Borrowed("+44 20 7946 0000").validate_phone_number(None, None),
        Ok(())
    );
    assert_eq!(
        Cow::<str>::Owned("+44 20 7946 0000".to_owned()).validate_phone_number(None, None),
        Ok(())
    );
    assert_eq!(
        PhoneNumber::from_str("+44 20 7946 0000")
            .expect("valid phone number")
            .validate_phone_number(None, None),
        Ok(())
    );

    assert_eq!(None::<&str>.validate_phone_number(None, None), Ok(()));
    assert_eq!(
        Some("+44 20 7946 0000").validate_phone_number(None, None),
        Ok(())
    );

    assert_eq!(
        (&"+44 20 7946 0000").validate_phone_number(None, None),
        Ok(())
    );
    #[allow(unused_allocation)]
    {
        assert_eq!(
            Box::new("+44 20 7946 0000").validate_phone_number(None, None),
            Ok(())
        );
    }
    assert_eq!(
        Arc::new("+44 20 7946 0000").validate_phone_number(None, None),
        Ok(())
    );
    assert_eq!(
        Rc::new("+44 20 7946 0000").validate_phone_number(None, None),
        Ok(())
    );

    let cell = RefCell::new("+44 20 7946 0000");
    assert_eq!(cell.borrow().validate_phone_number(None, None), Ok(()));
    assert_eq!(cell.borrow_mut().validate_phone_number(None, None), Ok(()));
}

#[test]
fn phone_number_invalid_error() {
    assert_eq!(
        (*"+44").validate_phone_number(None, None),
        Err(PhoneNumberError::from_kind(PhoneNumberParseErrorKind::TooShortNsn))
    );
    assert_eq!(
        "+44".validate_phone_number(None, None),
        Err(PhoneNumberError::from_kind(PhoneNumberParseErrorKind::TooShortNsn))
    );
    assert_eq!(
        "+44".to_owned().validate_phone_number(None, None),
        Err(PhoneNumberError::from_kind(PhoneNumberParseErrorKind::TooShortNsn))
    );
    assert_eq!(
        Cow::<str>::Borrowed("+44").validate_phone_number(None, None),
        Err(PhoneNumberError::from_kind(PhoneNumberParseErrorKind::TooShortNsn))
    );
    assert_eq!(
        Cow::<str>::Owned("+44".to_owned()).validate_phone_number(None, None),
        Err(PhoneNumberError::from_kind(PhoneNumberParseErrorKind::TooShortNsn))
    );

    assert_eq!(
        Some("+44").validate_phone_number(None, None),
        Err(PhoneNumberError::from_kind(PhoneNumberParseErrorKind::TooShortNsn))
    );

    assert_eq!(
        (&"+44").validate_phone_number(None, None),
        Err(PhoneNumberError::from_kind(PhoneNumberParseErrorKind::TooShortNsn))
    );
    #[allow(unused_allocation)]
    {
        assert_eq!(
            Box::new("+44").validate_phone_number(None, None),
            Err(PhoneNumberError::from_kind(PhoneNumberParseErrorKind::TooShortNsn))
        );
    }
    assert_eq!(
        Arc::new("+44").validate_phone_number(None, None),
        Err(PhoneNumberError::from_kind(PhoneNumberParseErrorKind::TooShortNsn))
    );
    assert_eq!(
        Rc::new("+44").validate_phone_number(None, None),
        Err(PhoneNumberError::from_kind(PhoneNumberParseErrorKind::TooShortNsn))
    );

    let cell = RefCell::new("+44");
    assert_eq!(
        cell.borrow().validate_phone_number(None, None),
        Err(PhoneNumberError::from_kind(PhoneNumberParseErrorKind::TooShortNsn))
    );
    assert_eq!(
        cell.borrow_mut().validate_phone_number(None, None),
        Err(PhoneNumberError::from_kind(PhoneNumberParseErrorKind::TooShortNsn))
    );
}

#[test]
fn disallowed_country_code_error() {
    assert_eq!(
        "+44 20 7946 0000".validate_phone_number(None, Some(vec![PhoneNumberCountry::NL])),
        Err(PhoneNumberError::DisallowedCountryCode {
            allowed: vec![PhoneNumberCountry::NL],
            value: Some(PhoneNumberCountry::GB),
            code: PhoneNumberErrorCode,
            message: "country code `GB` is not allowed, must be one of `NL`".to_owned()
        })
    );
}
