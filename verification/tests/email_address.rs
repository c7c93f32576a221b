use std::{borrow::Cow, cell::RefCell, rc::Rc, sync::Arc};

use email_address::EmailAddress;

use fortifier::{EmailAddressError, EmailAddressErrorKind, EmailAddressOptions, ValidateEmailAddress};

#[test]
fn email_address_ok() {
    let options = EmailAddressOptions::default().without_display_text();

    assert_eq!((*"admin@localhost").validate_email_address(options), Ok(()));
    assert_eq!("admin@localhost".validate_email_address(options), Ok(()));
    assert_eq!(
        "admin@localhost".to_owned().validate_email_address(options),
        Ok(())
    );
    assert_eq!(
        Cow::<str>::Borrowed("admin@localhost").validate_email_address(options),
        Ok(())
    );
    assert_eq!(
        Cow::<str>::Owned("admin@localhost".to_owned()).validate_email_address(options),
        Ok(())
    );
    assert_eq!(
        EmailAddress::new_unchecked("admin@localhost").validate_email_address(options),
        Ok(())
    );

    assert_eq!(None::<&str>.validate_email_address(options), Ok(()));
    assert_eq!(
        Some("admin@localhost").validate_email_address(options),
        Ok(())
    );

    assert_eq!((&"admin@localhost").validate_email_address(options), Ok(()));
    #[allow(unused_allocation)]
    {
        assert_eq!(
            Box::new("admin@localhost").validate_email_address(options),
            Ok(())
        );
    }
    assert_eq!(
        Arc::new("admin@localhost").validate_email_address(options),
        Ok(())
    );
    assert_eq!(
        Rc::new("admin@localhost").validate_email_address(options),
        Ok(())
    );

    let cell = RefCell::new("admin@localhost");
    assert_eq!(cell.borrow().validate_email_address(options), Ok(()));
    assert_eq!(cell.borrow_mut().validate_email_address(options), Ok(()));
}

#[test]
fn email_address_invalid_error() {
    let options = EmailAddressOptions::default().without_display_text();

    assert_eq!(
        (*"admin").validate_email_address(options),
        Err(EmailAddressError::from_kind(EmailAddressErrorKind::MissingSeparator))
    );
    assert_eq!(
        "admin".validate_email_address(options),
        Err(EmailAddressError::from_kind(EmailAddressErrorKind::MissingSeparator))
    );
    assert_eq!(
        "admin".to_owned().validate_email_address(options),
        Err(EmailAddressError::from_kind(EmailAddressErrorKind::MissingSeparator))
    );
    assert_eq!(
        Cow::<str>::Borrowed("admin").validate_email_address(options),
        Err(EmailAddressError::from_kind(EmailAddressErrorKind::MissingSeparator))
    );
    assert_eq!(
        Cow::<str>::Owned("admin".to_owned()).validate_email_address(options),
        Err(EmailAddressError::from_kind(EmailAddressErrorKind::MissingSeparator))
    );
    assert_eq!(
        EmailAddress::new_unchecked("admin").validate_email_address(options),
        Err(EmailAddressError::from_kind(EmailAddressErrorKind::MissingSeparator))
    );

    assert_eq!(
        Some("admin").validate_email_address(options),
        Err(EmailAddressError::from_kind(EmailAddressErrorKind::MissingSeparator))
    );

    assert_eq!(
        (&"admin").validate_email_address(options),
        Err(EmailAddressError::from_kind(EmailAddressErrorKind::MissingSeparator))
    );
    #[allow(unused_allocation)]
    {
        assert_eq!(
            Box::new("admin").validate_email_address(options),
            Err(EmailAddressError::from_kind(EmailAddressErrorKind::MissingSeparator))
        );
    }
    assert_eq!(
        Arc::new("admin").validate_email_address(options),
        Err(EmailAddressError::from_kind(EmailAddressErrorKind::MissingSeparator))
    );
    assert_eq!(
        Rc::new("admin").validate_email_address(options),
        Err(EmailAddressError::from_kind(EmailAddressErrorKind::MissingSeparator))
    );

    let cell = RefCell::new("admin");
    assert_eq!(
        cell.borrow().validate_email_address(options),
        Err(EmailAddressError::from_kind(EmailAddressErrorKind::MissingSeparator))
    );
    assert_eq!(
        cell.borrow_mut().validate_email_address(options),
        Err(EmailAddressError::from_kind(EmailAddressErrorKind::MissingSeparator))
    );
}
