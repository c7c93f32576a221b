use std::{
    borrow::Cow,
    cell::RefCell,
    collections::{BTreeMap, BTreeSet, HashMap, HashSet, VecDeque},
    rc::Rc,
    sync::Arc,
};

use indexmap::{IndexMap, IndexSet};

use fortifier::{LengthError, LengthErrorCode, ValidateLength};

#[test]
fn length_ok() {
    assert_eq!((*"a").validate_length(Some(1), None, None), Ok(()));
    assert_eq!("a".validate_length(Some(1), None, None), Ok(()));
    assert_eq!("a".to_owned().validate_length(Some(1), None, None), Ok(()));
    assert_eq!(
        Cow::<str>::Borrowed("a").validate_length(Some(1), None, None),
        Ok(())
    );
    assert_eq!(
        Cow::<str>::Owned("a".to_owned()).validate_length(Some(1), None, None),
        Ok(())
    );

    assert_eq!(None::<&str>.validate_length(Some(1), None, None), Ok(()));
    assert_eq!(Some("a").validate_length(Some(1), None, None), Ok(()));

    assert_eq!([""; 1].validate_length(Some(1), None, None), Ok(()));
    assert_eq!([""].validate_length(Some(1), None, None), Ok(()));
    assert_eq!(
        BTreeSet::from([""]).validate_length(Some(1), None, None),
        Ok(())
    );
    assert_eq!(
        BTreeMap::from([("", "")]).validate_length(Some(1), None, None),
        Ok(())
    );
    assert_eq!(
        HashSet::from([""]).validate_length(Some(1), None, None),
        Ok(())
    );
    assert_eq!(
        HashMap::from([("", "")]).validate_length(Some(1), None, None),
        Ok(())
    );
    assert_eq!(vec![""].validate_length(Some(1), None, None), Ok(()));
    assert_eq!(
        VecDeque::from([""]).validate_length(Some(1), None, None),
        Ok(())
    );
    {
        assert_eq!(
            IndexSet::from([""]).validate_length(Some(1), None, None),
            Ok(())
        );
        assert_eq!(
            IndexMap::from([("", "")]).validate_length(Some(1), None, None),
            Ok(())
        );
    }

    assert_eq!((&"a").validate_length(Some(1), None, None), Ok(()));
    #[allow(unused_allocation)]
    {
        assert_eq!(Box::new("a").validate_length(Some(1), None, None), Ok(()));
    }
    assert_eq!(Arc::new("a").validate_length(Some(1), None, None), Ok(()));
    assert_eq!(Rc::new("a").validate_length(Some(1), None, None), Ok(()));

    let cell = RefCell::new("a");
    assert_eq!(cell.borrow().validate_length(Some(1), None, None), Ok(()));
    assert_eq!(
        cell.borrow_mut().validate_length(Some(1), None, None),
        Ok(())
    );
}

#[test]
fn equal_error() {
    assert_eq!(
        (*"a").validate_length(Some(2), None, None),
        Err(LengthError::Equal {
            equal: 2,
            length: 1,
            code: LengthErrorCode,
            message: "length 1 is not equal to required length 2".to_owned(),
        })
    );
    assert_eq!(
        "a".validate_length(Some(2), None, None),
        Err(LengthError::Equal {
            equal: 2,
            length: 1,
            code: LengthErrorCode,
            message: "length 1 is not equal to required length 2".to_owned(),
        })
    );
    assert_eq!(
        "a".to_owned().validate_length(Some(2), None, None),
        Err(LengthError::Equal {
            equal: 2,
            length: 1,
            code: LengthErrorCode,
            message: "length 1 is not equal to required length 2".to_owned(),
        })
    );
    assert_eq!(
        Cow::<str>::Borrowed("a").validate_length(Some(2), None, None),
        Err(LengthError::Equal {
            equal: 2,
            length: 1,
            code: LengthErrorCode,
            message: "length 1 is not equal to required length 2".to_owned(),
        })
    );
    assert_eq!(
        Cow::<str>::Owned("a".to_owned()).validate_length(Some(2), None, None),
        Err(LengthError::Equal {
            equal: 2,
            length: 1,
            code: LengthErrorCode,
            message: "length 1 is not equal to required length 2".to_owned(),
        })
    );

    assert_eq!(
        Some("a").validate_length(Some(2), None, None),
        Err(LengthError::Equal {
            equal: 2,
            length: 1,
            code: LengthErrorCode,
            message: "length 1 is not equal to required length 2".to_owned(),
        })
    );

    assert_eq!(
        [""; 1].validate_length(Some(2), None, None),
        Err(LengthError::Equal {
            equal: 2,
            length: 1,
            code: LengthErrorCode,
            message: "length 1 is not equal to required length 2".to_owned(),
        })
    );
    assert_eq!(
        [""].validate_length(Some(2), None, None),
        Err(LengthError::Equal {
            equal: 2,
            length: 1,
            code: LengthErrorCode,
            message: "length 1 is not equal to required length 2".to_owned(),
        })
    );
    assert_eq!(
        BTreeSet::from([""]).validate_length(Some(2), None, None),
        Err(LengthError::Equal {
            equal: 2,
            length: 1,
            code: LengthErrorCode,
            message: "length 1 is not equal to required length 2".to_owned(),
        })
    );
    assert_eq!(
        BTreeMap::from([("", "")]).validate_length(Some(2), None, None),
        Err(LengthError::Equal {
            equal: 2,
            length: 1,
            code: LengthErrorCode,
            message: "length 1 is not equal to required length 2".to_owned(),
        })
    );
    assert_eq!(
        HashSet::from([""]).validate_length(Some(2), None, None),
        Err(LengthError::Equal {
            equal: 2,
            length: 1,
            code: LengthErrorCode,
            message: "length 1 is not equal to required length 2".to_owned(),
        })
    );
    assert_eq!(
        HashMap::from([("", "")]).validate_length(Some(2), None, None),
        Err(LengthError::Equal {
            equal: 2,
            length: 1,
            code: LengthErrorCode,
            message: "length 1 is not equal to required length 2".to_owned(),
        })
    );
    assert_eq!(
        vec![""].validate_length(Some(2), None, None),
        Err(LengthError::Equal {
            equal: 2,
            length: 1,
            code: LengthErrorCode,
            message: "length 1 is not equal to required length 2".to_owned(),
        })
    );
    assert_eq!(
        VecDeque::from([""]).validate_length(Some(2), None, None),
        Err(LengthError::Equal {
            equal: 2,
            length: 1,
            code: LengthErrorCode,
            message: "length 1 is not equal to required length 2".to_owned(),
        })
    );
    {
        assert_eq!(
            IndexSet::from([""]).validate_length(Some(2), None, None),
            Err(LengthError::Equal {
                equal: 2,
                length: 1,
                code: LengthErrorCode,
                message: "length 1 is not equal to required length 2".to_owned(),
            })
        );
        assert_eq!(
            IndexMap::from([("", "")]).validate_length(Some(2), None, None),
            Err(LengthError::Equal {
                equal: 2,
                length: 1,
                code: LengthErrorCode,
                message: "length 1 is not equal to required length 2".to_owned(),
            })
        );
    }

    assert_eq!(
        (&"a").validate_length(Some(2), None, None),
        Err(LengthError::Equal {
            equal: 2,
            length: 1,
            code: LengthErrorCode,
            message: "length 1 is not equal to required length 2".to_owned(),
        })
    );
    #[allow(unused_allocation)]
    {
        assert_eq!(
            Box::new("a").validate_length(Some(2), None, None),
            Err(LengthError::Equal {
                equal: 2,
                length: 1,
                code: LengthErrorCode,
                message: "length 1 is not equal to required length 2".to_owned(),
            })
        );
    }
    assert_eq!(
        Arc::new("a").validate_length(Some(2), None, None),
        Err(LengthError::Equal {
            equal: 2,
            length: 1,
            code: LengthErrorCode,
            message: "length 1 is not equal to required length 2".to_owned(),
        })
    );
    assert_eq!(
        Rc::new("a").validate_length(Some(2), None, None),
        Err(LengthError::Equal {
            equal: 2,
            length: 1,
            code: LengthErrorCode,
            message: "length 1 is not equal to required length 2".to_owned(),
        })
    );

    let cell = RefCell::new("a");
    assert_eq!(
        cell.borrow().validate_length(Some(2), None, None),
        Err(LengthError::Equal {
            equal: 2,
            length: 1,
            code: LengthErrorCode,
            message: "length 1 is not equal to required length 2".to_owned(),
        })
    );
    assert_eq!(
        cell.borrow_mut().validate_length(Some(2), None, None),
        Err(LengthError::Equal {
            equal: 2,
            length: 1,
            code: LengthErrorCode,
            message: "length 1 is not equal to required length 2".to_owned(),
        })
    );
}

#[test]
fn length_min_error() {
    assert_eq!(
        (*"a").validate_length(None, Some(3), None),
        Err(LengthError::Min {
            min: 3,
            length: 1,
            code: LengthErrorCode,
            message: "length 1 is less than minimum length 3".to_owned(),
        })
    );
    assert_eq!(
        "a".validate_length(None, Some(3), None),
        Err(LengthError::Min {
            min: 3,
            length: 1,
            code: LengthErrorCode,
            message: "length 1 is less than minimum length 3".to_owned(),
        })
    );
    assert_eq!(
        "a".to_owned().validate_length(None, Some(3), None),
        Err(LengthError::Min {
            min: 3,
            length: 1,
            code: LengthErrorCode,
            message: "length 1 is less than minimum length 3".to_owned(),
        })
    );
    assert_eq!(
        Cow::<str>::Borrowed("a").validate_length(None, Some(3), None),
        Err(LengthError::Min {
            min: 3,
            length: 1,
            code: LengthErrorCode,
            message: "length 1 is less than minimum length 3".to_owned(),
        })
    );
    assert_eq!(
        Cow::<str>::Owned("a".to_owned()).validate_length(None, Some(3), None),
        Err(LengthError::Min {
            min: 3,
            length: 1,
            code: LengthErrorCode,
            message: "length 1 is less than minimum length 3".to_owned(),
        })
    );

    assert_eq!(
        Some("a").validate_length(None, Some(3), None),
        Err(LengthError::Min {
            min: 3,
            length: 1,
            code: LengthErrorCode,
            message: "length 1 is less than minimum length 3".to_owned(),
        })
    );

    assert_eq!(
        [""; 1].validate_length(None, Some(3), None),
        Err(LengthError::Min {
            min: 3,
            length: 1,
            code: LengthErrorCode,
            message: "length 1 is less than minimum length 3".to_owned(),
        })
    );
    assert_eq!(
        [""].validate_length(None, Some(3), None),
        Err(LengthError::Min {
            min: 3,
            length: 1,
            code: LengthErrorCode,
            message: "length 1 is less than minimum length 3".to_owned(),
        })
    );
    assert_eq!(
        BTreeSet::from([""]).validate_length(None, Some(3), None),
        Err(LengthError::Min {
            min: 3,
            length: 1,
            code: LengthErrorCode,
            message: "length 1 is less than minimum length 3".to_owned(),
        })
    );
    assert_eq!(
        BTreeMap::from([("", "")]).validate_length(None, Some(3), None),
        Err(LengthError::Min {
            min: 3,
            length: 1,
            code: LengthErrorCode,
            message: "length 1 is less than minimum length 3".to_owned(),
        })
    );
    assert_eq!(
        HashSet::from([""]).validate_length(None, Some(3), None),
        Err(LengthError::Min {
            min: 3,
            length: 1,
            code: LengthErrorCode,
            message: "length 1 is less than minimum length 3".to_owned(),
        })
    );
    assert_eq!(
        HashMap::from([("", "")]).validate_length(None, Some(3), None),
        Err(LengthError::Min {
            min: 3,
            length: 1,
            code: LengthErrorCode,
            message: "length 1 is less than minimum length 3".to_owned(),
        })
    );
    assert_eq!(
        vec![""].validate_length(None, Some(3), None),
        Err(LengthError::Min {
            min: 3,
            length: 1,
            code: LengthErrorCode,
            message: "length 1 is less than minimum length 3".to_owned(),
        })
    );
    assert_eq!(
        VecDeque::from([""]).validate_length(None, Some(3), None),
        Err(LengthError::Min {
            min: 3,
            length: 1,
            code: LengthErrorCode,
            message: "length 1 is less than minimum length 3".to_owned(),
        })
    );
    {
        assert_eq!(
            IndexSet::from([""]).validate_length(None, Some(3), None),
            Err(LengthError::Min {
                min: 3,
                length: 1,
                code: LengthErrorCode,
                message: "length 1 is less than minimum length 3".to_owned(),
            })
        );
        assert_eq!(
            IndexMap::from([("", "")]).validate_length(None, Some(3), None),
            Err(LengthError::Min {
                min: 3,
                length: 1,
                code: LengthErrorCode,
                message: "length 1 is less than minimum length 3".to_owned(),
            })
        );
    }

    assert_eq!(
        (&"a").validate_length(None, Some(3), None),
        Err(LengthError::Min {
            min: 3,
            length: 1,
            code: LengthErrorCode,
            message: "length 1 is less than minimum length 3".to_owned(),
        })
    );
    #[allow(unused_allocation)]
    {
        assert_eq!(
            Box::new("a").validate_length(None, Some(3), None),
            Err(LengthError::Min {
                min: 3,
                length: 1,
                code: LengthErrorCode,
                message: "length 1 is less than minimum length 3".to_owned(),
            })
        );
    }
    assert_eq!(
        Arc::new("a").validate_length(None, Some(3), None),
        Err(LengthError::Min {
            min: 3,
            length: 1,
            code: LengthErrorCode,
            message: "length 1 is less than minimum length 3".to_owned(),
        })
    );
    assert_eq!(
        Rc::new("a").validate_length(None, Some(3), None),
        Err(LengthError::Min {
            min: 3,
            length: 1,
            code: LengthErrorCode,
            message: "length 1 is less than minimum length 3".to_owned(),
        })
    );

    let cell = RefCell::new("a");
    assert_eq!(
        cell.borrow().validate_length(None, Some(3), None),
        Err(LengthError::Min {
            min: 3,
            length: 1,
            code: LengthErrorCode,
            message: "length 1 is less than minimum length 3".to_owned(),
        })
    );
    assert_eq!(
        cell.borrow_mut().validate_length(None, Some(3), None),
        Err(LengthError::Min {
            min: 3,
            length: 1,
            code: LengthErrorCode,
            message: "length 1 is less than minimum length 3".to_owned(),
        })
    );
}

#[test]
fn length_max_error() {
    assert_eq!(
        (*"a").validate_length(None, None, Some(0)),
        Err(LengthError::Max {
            max: 0,
            length: 1,
            code: LengthErrorCode,
            message: "length 1 is greater than maximum length 0".to_owned(),
        })
    );
    assert_eq!(
        "a".validate_length(None, None, Some(0)),
        Err(LengthError::Max {
            max: 0,
            length: 1,
            code: LengthErrorCode,
            message: "length 1 is greater than maximum length 0".to_owned(),
        })
    );
    assert_eq!(
        "a".to_owned().validate_length(None, None, Some(0)),
        Err(LengthError::Max {
            max: 0,
            length: 1,
            code: LengthErrorCode,
            message: "length 1 is greater than maximum length 0".to_owned(),
        })
    );
    assert_eq!(
        Cow::<str>::Borrowed("a").validate_length(None, None, Some(0)),
        Err(LengthError::Max {
            max: 0,
            length: 1,
            code: LengthErrorCode,
            message: "length 1 is greater than maximum length 0".to_owned(),
        })
    );
    assert_eq!(
        Cow::<str>::Owned("a".to_owned()).validate_length(None, None, Some(0)),
        Err(LengthError::Max {
            max: 0,
            length: 1,
            code: LengthErrorCode,
            message: "length 1 is greater than maximum length 0".to_owned(),
        })
    );

    assert_eq!(
        Some("a").validate_length(None, None, Some(0)),
        Err(LengthError::Max {
            max: 0,
            length: 1,
            code: LengthErrorCode,
            message: "length 1 is greater than maximum length 0".to_owned(),
        })
    );

    assert_eq!(
        [""; 1].validate_length(None, None, Some(0)),
        Err(LengthError::Max {
            max: 0,
            length: 1,
            code: LengthErrorCode,
            message: "length 1 is greater than maximum length 0".to_owned(),
        })
    );
    assert_eq!(
        [""].validate_length(None, None, Some(0)),
        Err(LengthError::Max {
            max: 0,
            length: 1,
            code: LengthErrorCode,
            message: "length 1 is greater than maximum length 0".to_owned(),
        })
    );
    assert_eq!(
        BTreeSet::from([""]).validate_length(None, None, Some(0)),
        Err(LengthError::Max {
            max: 0,
            length: 1,
            code: LengthErrorCode,
            message: "length 1 is greater than maximum length 0".to_owned(),
        })
    );
    assert_eq!(
        BTreeMap::from([("", "")]).validate_length(None, None, Some(0)),
        Err(LengthError::Max {
            max: 0,
            length: 1,
            code: LengthErrorCode,
            message: "length 1 is greater than maximum length 0".to_owned(),
        })
    );
    assert_eq!(
        HashSet::from([""]).validate_length(None, None, Some(0)),
        Err(LengthError::Max {
            max: 0,
            length: 1,
            code: LengthErrorCode,
            message: "length 1 is greater than maximum length 0".to_owned(),
        })
    );
    assert_eq!(
        HashMap::from([("", "")]).validate_length(None, None, Some(0)),
        Err(LengthError::Max {
            max: 0,
            length: 1,
            code: LengthErrorCode,
            message: "length 1 is greater than maximum length 0".to_owned(),
        })
    );
    assert_eq!(
        vec![""].validate_length(None, None, Some(0)),
        Err(LengthError::Max {
            max: 0,
            length: 1,
            code: LengthErrorCode,
            message: "length 1 is greater than maximum length 0".to_owned(),
        })
    );
    assert_eq!(
        VecDeque::from([""]).validate_length(None, None, Some(0)),
        Err(LengthError::Max {
            max: 0,
            length: 1,
            code: LengthErrorCode,
            message: "length 1 is greater than maximum length 0".to_owned(),
        })
    );
    {
        assert_eq!(
            IndexSet::from([""]).validate_length(None, None, Some(0)),
            Err(LengthError::Max {
                max: 0,
                length: 1,
                code: LengthErrorCode,
                message: "length 1 is greater than maximum length 0".to_owned(),
            })
        );
        assert_eq!(
            IndexMap::from([("", "")]).validate_length(None, None, Some(0)),
            Err(LengthError::Max {
                max: 0,
                length: 1,
                code: LengthErrorCode,
                message: "length 1 is greater than maximum length 0".to_owned(),
            })
        );
    }

    assert_eq!(
        (&"a").validate_length(None, None, Some(0)),
        Err(LengthError::Max {
            max: 0,
            length: 1,
            code: LengthErrorCode,
            message: "length 1 is greater than maximum length 0".to_owned(),
        })
    );
    #[allow(unused_allocation)]
    {
        assert_eq!(
            Box::new("a").validate_length(None, None, Some(0)),
            Err(LengthError::Max {
                max: 0,
                length: 1,
                code: LengthErrorCode,
                message: "length 1 is greater than maximum length 0".to_owned(),
            })
        );
    }
    assert_eq!(
        Arc::new("a").validate_length(None, None, Some(0)),
        Err(LengthError::Max {
            max: 0,
            length: 1,
            code: LengthErrorCode,
            message: "length 1 is greater than maximum length 0".to_owned(),
        })
    );
    assert_eq!(
        Rc::new("a").validate_length(None, None, Some(0)),
        Err(LengthError::Max {
            max: 0,
            length: 1,
            code: LengthErrorCode,
            message: "length 1 is greater than maximum length 0".to_owned(),
        })
    );

    let cell = RefCell::new("a");
    assert_eq!(
        cell.borrow().validate_length(None, None, Some(0)),
        Err(LengthError::Max {
            max: 0,
            length: 1,
            code: LengthErrorCode,
            message: "length 1 is greater than maximum length 0".to_owned(),
        })
    );
    assert_eq!(
        cell.borrow_mut().validate_length(None, None, Some(0)),
        Err(LengthError::Max {
            max: 0,
            length: 1,
            code: LengthErrorCode,
            message: "length 1 is greater than maximum length 0".to_owned(),
        })
    );
}
