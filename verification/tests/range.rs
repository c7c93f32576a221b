use std::{cell::RefCell, rc::Rc, sync::Arc};

use fortifier::{RangeError, RangeErrorCode, ValidateRange};

#[test]
fn range_ok() {
    assert_eq!(false.validate_range(Some(false), None, None, None), Ok(()));
    assert_eq!(3u8.validate_range(Some(1), None, None, None), Ok(()));
    assert_eq!(3u16.validate_range(Some(1), None, None, None), Ok(()));
    assert_eq!(3u32.validate_range(Some(1), None, None, None), Ok(()));
    assert_eq!(3u32.validate_range(Some(1), None, None, None), Ok(()));
    assert_eq!(3u64.validate_range(Some(1), None, None, None), Ok(()));
    assert_eq!(3u128.validate_range(Some(1), None, None, None), Ok(()));
    assert_eq!(3usize.validate_range(Some(1), None, None, None), Ok(()));
    assert_eq!(3i8.validate_range(Some(1), None, None, None), Ok(()));
    assert_eq!(3i16.validate_range(Some(1), None, None, None), Ok(()));
    assert_eq!(3i32.validate_range(Some(1), None, None, None), Ok(()));
    assert_eq!(3i32.validate_range(Some(1), None, None, None), Ok(()));
    assert_eq!(3i64.validate_range(Some(1), None, None, None), Ok(()));
    assert_eq!(3i128.validate_range(Some(1), None, None, None), Ok(()));
    assert_eq!(3isize.validate_range(Some(1), None, None, None), Ok(()));
    assert_eq!('c'.validate_range(Some('a'), None, None, None), Ok(()));
    assert_eq!("c".validate_range(Some("a"), None, None, None), Ok(()));


    assert_eq!(
        None::<i32>.validate_range(Some(1), None, None, None),
        Ok(())
    );
    assert_eq!(Some(3).validate_range(Some(1), None, None, None), Ok(()));

    #[allow(clippy::needless_borrow)]
    {
        assert_eq!((&3).validate_range(Some(1), None, None, None), Ok(()));
    }
    #[allow(unused_allocation)]
    {
        assert_eq!(
            (Box::new(3)).validate_range(Some(1), None, None, None),
            Ok(())
        );
    }
    assert_eq!(
        (Arc::new(3)).validate_range(Some(1), None, None, None),
        Ok(())
    );
    assert_eq!(
        (Rc::new(3)).validate_range(Some(1), None, None, None),
        Ok(())
    );

    let cell = RefCell::new(3);
    assert_eq!(
        cell.borrow().validate_range(Some(1), None, None, None),
        Ok(())
    );
    assert_eq!(
        cell.borrow_mut().validate_range(Some(1), None, None, None),
        Ok(())
    );
}

#[test]
fn range_min_error() {
    assert_eq!(
        false.validate_range(Some(true), None, None, None),
        Err(RangeError::Min {
            min: true,
            value: false,
            code: RangeErrorCode,
            message: "value false is less than minimum value true".to_owned(),
        })
    );
    assert_eq!(
        3u8.validate_range(Some(4), None, None, None),
        Err(RangeError::Min {
            min: 4,
            value: 3,
            code: RangeErrorCode,
            message: "value 3 is less than minimum value 4".to_owned(),
        })
    );
    assert_eq!(
        3u16.validate_range(Some(4), None, None, None),
        Err(RangeError::Min {
            min: 4,
            value: 3,
            code: RangeErrorCode,
            message: "value 3 is less than minimum value 4".to_owned(),
        })
    );
    assert_eq!(
        3u32.validate_range(Some(4), None, None, None),
        Err(RangeError::Min {
            min: 4,
            value: 3,
            code: RangeErrorCode,
            message: "value 3 is less than minimum value 4".to_owned(),
        })
    );
    assert_eq!(
        3u32.validate_range(Some(4), None, None, None),
        Err(RangeError::Min {
            min: 4,
            value: 3,
            code: RangeErrorCode,
            message: "value 3 is less than minimum value 4".to_owned(),
        })
    );
    assert_eq!(
        3u64.validate_range(Some(4), None, None, None),
        Err(RangeError::Min {
            min: 4,
            value: 3,
            code: RangeErrorCode,
            message: "value 3 is less than minimum value 4".to_owned(),
        })
    );
    assert_eq!(
        3u128.validate_range(Some(4), None, None, None),
        Err(RangeError::Min {
            min: 4,
            value: 3,
            code: RangeErrorCode,
            message: "value 3 is less than minimum value 4".to_owned(),
        })
    );
    assert_eq!(
        3usize.validate_range(Some(4), None, None, None),
        Err(RangeError::Min {
            min: 4,
            value: 3,
            code: RangeErrorCode,
            message: "value 3 is less than minimum value 4".to_owned(),
        })
    );
    assert_eq!(
        3i8.validate_range(Some(4), None, None, None),
        Err(RangeError::Min {
            min: 4,
            value: 3,
            code: RangeErrorCode,
            message: "value 3 is less than minimum value 4".to_owned(),
        })
    );
    assert_eq!(
        3i16.validate_range(Some(4), None, None, None),
        Err(RangeError::Min {
            min: 4,
            value: 3,
            code: RangeErrorCode,
            message: "value 3 is less than minimum value 4".to_owned(),
        })
    );
    assert_eq!(
        3i32.validate_range(Some(4), None, None, None),
        Err(RangeError::Min {
            min: 4,
            value: 3,
            code: RangeErrorCode,
            message: "value 3 is less than minimum value 4".to_owned(),
        })
    );
    assert_eq!(
        3i32.validate_range(Some(4), None, None, None),
        Err(RangeError::Min {
            min: 4,
            value: 3,
            code: RangeErrorCode,
            message: "value 3 is less than minimum value 4".to_owned(),
        })
    );
    assert_eq!(
        3i64.validate_range(Some(4), None, None, None),
        Err(RangeError::Min {
            min: 4,
            value: 3,
            code: RangeErrorCode,
            message: "value 3 is less than minimum value 4".to_owned(),
        })
    );
    assert_eq!(
        3i128.validate_range(Some(4), None, None, None),
        Err(RangeError::Min {
            min: 4,
            value: 3,
            code: RangeErrorCode,
            message: "value 3 is less than minimum value 4".to_owned(),
        })
    );
    assert_eq!(
        3isize.validate_range(Some(4), None, None, None),
        Err(RangeError::Min {
            min: 4,
            value: 3,
            code: RangeErrorCode,
            message: "value 3 is less than minimum value 4".to_owned(),
        })
    );
    assert_eq!(
        'c'.validate_range(Some('d'), None, None, None),
        Err(RangeError::Min {
            min: 'd',
            value: 'c',
            code: RangeErrorCode,
            message: "value c is less than minimum value d".to_owned(),
        })
    );
    assert_eq!(
        "c".validate_range(Some("d"), None, None, None),
        Err(RangeError::Min {
            min: "d",
            value: "c",
            code: RangeErrorCode,
            message: "value c is less than minimum value d".to_owned(),
        })
    );


    assert_eq!(
        Some(3).validate_range(Some(4), None, None, None),
        Err(RangeError::Min {
            min: 4,
            value: 3,
            code: RangeErrorCode,
            message: "value 3 is less than minimum value 4".to_owned(),
        })
    );

    #[allow(clippy::needless_borrow)]
    {
        assert_eq!(
            (&3).validate_range(Some(4), None, None, None),
            Err(RangeError::Min {
                min: 4,
                value: 3,
                code: RangeErrorCode,
                message: "value 3 is less than minimum value 4".to_owned(),
            })
        );
    }
    #[allow(unused_allocation)]
    {
        assert_eq!(
            (Box::new(3)).validate_range(Some(4), None, None, None),
            Err(RangeError::Min {
                min: 4,
                value: 3,
                code: RangeErrorCode,
                message: "value 3 is less than minimum value 4".to_owned(),
            })
        );
    }
    assert_eq!(
        (Arc::new(3)).validate_range(Some(4), None, None, None),
        Err(RangeError::Min {
            min: 4,
            value: 3,
            code: RangeErrorCode,
            message: "value 3 is less than minimum value 4".to_owned(),
        })
    );
    assert_eq!(
        (Rc::new(3)).validate_range(Some(4), None, None, None),
        Err(RangeError::Min {
            min: 4,
            value: 3,
            code: RangeErrorCode,
            message: "value 3 is less than minimum value 4".to_owned(),
        })
    );

    let cell = RefCell::new(3);
    assert_eq!(
        cell.borrow().validate_range(Some(4), None, None, None),
        Err(RangeError::Min {
            min: 4,
            value: 3,
            code: RangeErrorCode,
            message: "value 3 is less than minimum value 4".to_owned(),
        })
    );
    assert_eq!(
        cell.borrow_mut().validate_range(Some(4), None, None, None),
        Err(RangeError::Min {
            min: 4,
            value: 3,
            code: RangeErrorCode,
            message: "value 3 is less than minimum value 4".to_owned(),
        })
    );
}

#[test]
fn range_max_error() {
    assert_eq!(
        true.validate_range(None, Some(false), None, None),
        Err(RangeError::Max {
            max: false,
            value: true,
            code: RangeErrorCode,
            message: "value true is greater than maximum value false".to_owned(),
        })
    );
    assert_eq!(
        3u8.validate_range(None, Some(2), None, None),
        Err(RangeError::Max {
            max: 2,
            value: 3,
            code: RangeErrorCode,
            message: "value 3 is greater than maximum value 2".to_owned(),
        })
    );
    assert_eq!(
        3u16.validate_range(None, Some(2), None, None),
        Err(RangeError::Max {
            max: 2,
            value: 3,
            code: RangeErrorCode,
            message: "value 3 is greater than maximum value 2".to_owned(),
        })
    );
    assert_eq!(
        3u32.validate_range(None, Some(2), None, None),
        Err(RangeError::Max {
            max: 2,
            value: 3,
            code: RangeErrorCode,
            message: "value 3 is greater than maximum value 2".to_owned(),
        })
    );
    assert_eq!(
        3u32.validate_range(None, Some(2), None, None),
        Err(RangeError::Max {
            max: 2,
            value: 3,
            code: RangeErrorCode,
            message: "value 3 is greater than maximum value 2".to_owned(),
        })
    );
    assert_eq!(
        3u64.validate_range(None, Some(2), None, None),
        Err(RangeError::Max {
            max: 2,
            value: 3,
            code: RangeErrorCode,
            message: "value 3 is greater than maximum value 2".to_owned(),
        })
    );
    assert_eq!(
        3u128.validate_range(None, Some(2), None, None),
        Err(RangeError::Max {
            max: 2,
            value: 3,
            code: RangeErrorCode,
            message: "value 3 is greater than maximum value 2".to_owned(),
        })
    );
    assert_eq!(
        3usize.validate_range(None, Some(2), None, None),
        Err(RangeError::Max {
            max: 2,
            value: 3,
            code: RangeErrorCode,
            message: "value 3 is greater than maximum value 2".to_owned(),
        })
    );
    assert_eq!(
        3i8.validate_range(None, Some(2), None, None),
        Err(RangeError::Max {
            max: 2,
            value: 3,
            code: RangeErrorCode,
            message: "value 3 is greater than maximum value 2".to_owned(),
        })
    );
    assert_eq!(
        3i16.validate_range(None, Some(2), None, None),
        Err(RangeError::Max {
            max: 2,
            value: 3,
            code: RangeErrorCode,
            message: "value 3 is greater than maximum value 2".to_owned(),
        })
    );
    assert_eq!(
        3i32.validate_range(None, Some(2), None, None),
        Err(RangeError::Max {
            max: 2,
            value: 3,
            code: RangeErrorCode,
            message: "value 3 is greater than maximum value 2".to_owned(),
        })
    );
    assert_eq!(
        3i32.validate_range(None, Some(2), None, None),
        Err(RangeError::Max {
            max: 2,
            value: 3,
            code: RangeErrorCode,
            message: "value 3 is greater than maximum value 2".to_owned(),
        })
    );
    assert_eq!(
        3i64.validate_range(None, Some(2), None, None),
        Err(RangeError::Max {
            max: 2,
            value: 3,
            code: RangeErrorCode,
            message: "value 3 is greater than maximum value 2".to_owned(),
        })
    );
    assert_eq!(
        3i128.validate_range(None, Some(2), None, None),
        Err(RangeError::Max {
            max: 2,
            value: 3,
            code: RangeErrorCode,
            message: "value 3 is greater than maximum value 2".to_owned(),
        })
    );
    assert_eq!(
        3isize.validate_range(None, Some(2), None, None),
        Err(RangeError::Max {
            max: 2,
            value: 3,
            code: RangeErrorCode,
            message: "value 3 is greater than maximum value 2".to_owned(),
        })
    );
    assert_eq!(
        'c'.validate_range(None, Some('b'), None, None),
        Err(RangeError::Max {
            max: 'b',
            value: 'c',
            code: RangeErrorCode,
            message: "value c is greater than maximum value b".to_owned(),
        })
    );
    assert_eq!(
        "c".validate_range(None, Some("b"), None, None),
        Err(RangeError::Max {
            max: "b",
            value: "c",
            code: RangeErrorCode,
            message: "value c is greater than maximum value b".to_owned(),
        })
    );


    assert_eq!(
        Some(3).validate_range(None, Some(2), None, None),
        Err(RangeError::Max {
            max: 2,
            value: 3,
            code: RangeErrorCode,
            message: "value 3 is greater than maximum value 2".to_owned(),
        })
    );

    #[allow(clippy::needless_borrow)]
    {
        assert_eq!(
            (&3).validate_range(None, Some(2), None, None),
            Err(RangeError::Max {
                max: 2,
                value: 3,
                code: RangeErrorCode,
                message: "value 3 is greater than maximum value 2".to_owned(),
            })
        );
    }
    #[allow(unused_allocation)]
    {
        assert_eq!(
            (Box::new(3)).validate_range(None, Some(2), None, None),
            Err(RangeError::Max {
                max: 2,
                value: 3,
                code: RangeErrorCode,
                message: "value 3 is greater than maximum value 2".to_owned(),
            })
        );
    }
    assert_eq!(
        (Arc::new(3)).validate_range(None, Some(2), None, None),
        Err(RangeError::Max {
            max: 2,
            value: 3,
            code: RangeErrorCode,
            message: "value 3 is greater than maximum value 2".to_owned(),
        })
    );
    assert_eq!(
        (Rc::new(3)).validate_range(None, Some(2), None, None),
        Err(RangeError::Max {
            max: 2,
            value: 3,
            code: RangeErrorCode,
            message: "value 3 is greater than maximum value 2".to_owned(),
        })
    );

    let cell = RefCell::new(3);
    assert_eq!(
        cell.borrow().validate_range(None, Some(2), None, None),
        Err(RangeError::Max {
            max: 2,
            value: 3,
            code: RangeErrorCode,
            message: "value 3 is greater than maximum value 2".to_owned(),
        })
    );
    assert_eq!(
        cell.borrow_mut().validate_range(None, Some(2), None, None),
        Err(RangeError::Max {
            max: 2,
            value: 3,
            code: RangeErrorCode,
            message: "value 3 is greater than maximum value 2".to_owned(),
        })
    );
}

#[test]
fn exclusive_min_error() {
    assert_eq!(
        true.validate_range(None, None, Some(true), None),
        Err(RangeError::ExclusiveMin {
            exclusive_min: true,
            value: true,
            code: RangeErrorCode,
            message: "value true is less than or equal to exclusive minimum value true"
                .to_owned(),
        })
    );
    assert_eq!(
        3u8.validate_range(None, None, Some(3), None),
        Err(RangeError::ExclusiveMin {
            exclusive_min: 3,
            value: 3,
            code: RangeErrorCode,
            message: "value 3 is less than or equal to exclusive minimum value 3".to_owned(),
        })
    );
    assert_eq!(
        3u16.validate_range(None, None, Some(3), None),
        Err(RangeError::ExclusiveMin {
            exclusive_min: 3,
            value: 3,
            code: RangeErrorCode,
            message: "value 3 is less than or equal to exclusive minimum value 3".to_owned(),
        })
    );
    assert_eq!(
        3u32.validate_range(None, None, Some(3), None),
        Err(RangeError::ExclusiveMin {
            exclusive_min: 3,
            value: 3,
            code: RangeErrorCode,
            message: "value 3 is less than or equal to exclusive minimum value 3".to_owned(),
        })
    );
    assert_eq!(
        3u32.validate_range(None, None, Some(3), None),
        Err(RangeError::ExclusiveMin {
            exclusive_min: 3,
            value: 3,
            code: RangeErrorCode,
            message: "value 3 is less than or equal to exclusive minimum value 3".to_owned(),
        })
    );
    assert_eq!(
        3u64.validate_range(None, None, Some(3), None),
        Err(RangeError::ExclusiveMin {
            exclusive_min: 3,
            value: 3,
            code: RangeErrorCode,
            message: "value 3 is less than or equal to exclusive minimum value 3".to_owned(),
        })
    );
    assert_eq!(
        3u128.validate_range(None, None, Some(3), None),
        Err(RangeError::ExclusiveMin {
            exclusive_min: 3,
            value: 3,
            code: RangeErrorCode,
            message: "value 3 is less than or equal to exclusive minimum value 3".to_owned(),
        })
    );
    assert_eq!(
        3usize.validate_range(None, None, Some(3), None),
        Err(RangeError::ExclusiveMin {
            exclusive_min: 3,
            value: 3,
            code: RangeErrorCode,
            message: "value 3 is less than or equal to exclusive minimum value 3".to_owned(),
        })
    );
    assert_eq!(
        3i8.validate_range(None, None, Some(3), None),
        Err(RangeError::ExclusiveMin {
            exclusive_min: 3,
            value: 3,
            code: RangeErrorCode,
            message: "value 3 is less than or equal to exclusive minimum value 3".to_owned(),
        })
    );
    assert_eq!(
        3i16.validate_range(None, None, Some(3), None),
        Err(RangeError::ExclusiveMin {
            exclusive_min: 3,
            value: 3,
            code: RangeErrorCode,
            message: "value 3 is less than or equal to exclusive minimum value 3".to_owned(),
        })
    );
    assert_eq!(
        3i32.validate_range(None, None, Some(3), None),
        Err(RangeError::ExclusiveMin {
            exclusive_min: 3,
            value: 3,
            code: RangeErrorCode,
            message: "value 3 is less than or equal to exclusive minimum value 3".to_owned(),
        })
    );
    assert_eq!(
        3i32.validate_range(None, None, Some(3), None),
        Err(RangeError::ExclusiveMin {
            exclusive_min: 3,
            value: 3,
            code: RangeErrorCode,
            message: "value 3 is less than or equal to exclusive minimum value 3".to_owned(),
        })
    );
    assert_eq!(
        3i64.validate_range(None, None, Some(3), None),
        Err(RangeError::ExclusiveMin {
            exclusive_min: 3,
            value: 3,
            code: RangeErrorCode,
            message: "value 3 is less than or equal to exclusive minimum value 3".to_owned(),
        })
    );
    assert_eq!(
        3i128.validate_range(None, None, Some(3), None),
        Err(RangeError::ExclusiveMin {
            exclusive_min: 3,
            value: 3,
            code: RangeErrorCode,
            message: "value 3 is less than or equal to exclusive minimum value 3".to_owned(),
        })
    );
    assert_eq!(
        3isize.validate_range(None, None, Some(3), None),
        Err(RangeError::ExclusiveMin {
            exclusive_min: 3,
            value: 3,
            code: RangeErrorCode,
            message: "value 3 is less than or equal to exclusive minimum value 3".to_owned(),
        })
    );
    assert_eq!(
        'c'.validate_range(None, None, Some('c'), None),
        Err(RangeError::ExclusiveMin {
            exclusive_min: 'c',
            value: 'c',
            code: RangeErrorCode,
            message: "value c is less than or equal to exclusive minimum value c".to_owned(),
        })
    );
    assert_eq!(
        "c".validate_range(None, None, Some("c"), None),
        Err(RangeError::ExclusiveMin {
            exclusive_min: "c",
            value: "c",
            code: RangeErrorCode,
            message: "value c is less than or equal to exclusive minimum value c".to_owned(),
        })
    );


    assert_eq!(
        Some(3).validate_range(None, None, Some(3), None),
        Err(RangeError::ExclusiveMin {
            exclusive_min: 3,
            value: 3,
            code: RangeErrorCode,
            message: "value 3 is less than or equal to exclusive minimum value 3".to_owned(),
        })
    );

    #[allow(clippy::needless_borrow)]
    {
        assert_eq!(
            (&3).validate_range(None, None, Some(3), None),
            Err(RangeError::ExclusiveMin {
                exclusive_min: 3,
                value: 3,
                code: RangeErrorCode,
                message: "value 3 is less than or equal to exclusive minimum value 3"
                    .to_owned(),
            })
        );
    }
    #[allow(unused_allocation)]
    {
        assert_eq!(
            (Box::new(3)).validate_range(None, None, Some(3), None),
            Err(RangeError::ExclusiveMin {
                exclusive_min: 3,
                value: 3,
                code: RangeErrorCode,
                message: "value 3 is less than or equal to exclusive minimum value 3"
                    .to_owned(),
            })
        );
    }
    assert_eq!(
        (Arc::new(3)).validate_range(None, None, Some(3), None),
        Err(RangeError::ExclusiveMin {
            exclusive_min: 3,
            value: 3,
            code: RangeErrorCode,
            message: "value 3 is less than or equal to exclusive minimum value 3".to_owned(),
        })
    );
    assert_eq!(
        (Rc::new(3)).validate_range(None, None, Some(3), None),
        Err(RangeError::ExclusiveMin {
            exclusive_min: 3,
            value: 3,
            code: RangeErrorCode,
            message: "value 3 is less than or equal to exclusive minimum value 3".to_owned(),
        })
    );

    let cell = RefCell::new(3);
    assert_eq!(
        cell.borrow().validate_range(None, None, Some(3), None),
        Err(RangeError::ExclusiveMin {
            exclusive_min: 3,
            value: 3,
            code: RangeErrorCode,
            message: "value 3 is less than or equal to exclusive minimum value 3".to_owned(),
        })
    );
    assert_eq!(
        cell.borrow_mut().validate_range(None, None, Some(3), None),
        Err(RangeError::ExclusiveMin {
            exclusive_min: 3,
            value: 3,
            code: RangeErrorCode,
            message: "value 3 is less than or equal to exclusive minimum value 3".to_owned(),
        })
    );
}

#[test]
fn exclusive_max_error() {
    assert_eq!(
        true.validate_range(None, None, None, Some(true)),
        Err(RangeError::ExclusiveMax {
            exclusive_max: true,
            value: true,
            code: RangeErrorCode,
            message: "value true is greater than or equal to exclusive maximum value true"
                .to_owned(),
        })
    );
    assert_eq!(
        3u8.validate_range(None, None, None, Some(3)),
        Err(RangeError::ExclusiveMax {
            exclusive_max: 3,
            value: 3,
            code: RangeErrorCode,
            message: "value 3 is greater than or equal to exclusive maximum value 3".to_owned(),
        })
    );
    assert_eq!(
        3u16.validate_range(None, None, None, Some(3)),
        Err(RangeError::ExclusiveMax {
            exclusive_max: 3,
            value: 3,
            code: RangeErrorCode,
            message: "value 3 is greater than or equal to exclusive maximum value 3".to_owned(),
        })
    );
    assert_eq!(
        3u32.validate_range(None, None, None, Some(3)),
        Err(RangeError::ExclusiveMax {
            exclusive_max: 3,
            value: 3,
            code: RangeErrorCode,
            message: "value 3 is greater than or equal to exclusive maximum value 3".to_owned(),
        })
    );
    assert_eq!(
        3u32.validate_range(None, None, None, Some(3)),
        Err(RangeError::ExclusiveMax {
            exclusive_max: 3,
            value: 3,
            code: RangeErrorCode,
            message: "value 3 is greater than or equal to exclusive maximum value 3".to_owned(),
        })
    );
    assert_eq!(
        3u64.validate_range(None, None, None, Some(3)),
        Err(RangeError::ExclusiveMax {
            exclusive_max: 3,
            value: 3,
            code: RangeErrorCode,
            message: "value 3 is greater than or equal to exclusive maximum value 3".to_owned(),
        })
    );
    assert_eq!(
        3u128.validate_range(None, None, None, Some(3)),
        Err(RangeError::ExclusiveMax {
            exclusive_max: 3,
            value: 3,
            code: RangeErrorCode,
            message: "value 3 is greater than or equal to exclusive maximum value 3".to_owned(),
        })
    );
    assert_eq!(
        3usize.validate_range(None, None, None, Some(3)),
        Err(RangeError::ExclusiveMax {
            exclusive_max: 3,
            value: 3,
            code: RangeErrorCode,
            message: "value 3 is greater than or equal to exclusive maximum value 3".to_owned(),
        })
    );
    assert_eq!(
        3i8.validate_range(None, None, None, Some(3)),
        Err(RangeError::ExclusiveMax {
            exclusive_max: 3,
            value: 3,
            code: RangeErrorCode,
            message: "value 3 is greater than or equal to exclusive maximum value 3".to_owned(),
        })
    );
    assert_eq!(
        3i16.validate_range(None, None, None, Some(3)),
        Err(RangeError::ExclusiveMax {
            exclusive_max: 3,
            value: 3,
            code: RangeErrorCode,
            message: "value 3 is greater than or equal to exclusive maximum value 3".to_owned(),
        })
    );
    assert_eq!(
        3i32.validate_range(None, None, None, Some(3)),
        Err(RangeError::ExclusiveMax {
            exclusive_max: 3,
            value: 3,
            code: RangeErrorCode,
            message: "value 3 is greater than or equal to exclusive maximum value 3".to_owned(),
        })
    );
    assert_eq!(
        3i32.validate_range(None, None, None, Some(3)),
        Err(RangeError::ExclusiveMax {
            exclusive_max: 3,
            value: 3,
            code: RangeErrorCode,
            message: "value 3 is greater than or equal to exclusive maximum value 3".to_owned(),
        })
    );
    assert_eq!(
        3i64.validate_range(None, None, None, Some(3)),
        Err(RangeError::ExclusiveMax {
            exclusive_max: 3,
            value: 3,
            code: RangeErrorCode,
            message: "value 3 is greater than or equal to exclusive maximum value 3".to_owned(),
        })
    );
    assert_eq!(
        3i128.validate_range(None, None, None, Some(3)),
        Err(RangeError::ExclusiveMax {
            exclusive_max: 3,
            value: 3,
            code: RangeErrorCode,
            message: "value 3 is greater than or equal to exclusive maximum value 3".to_owned(),
        })
    );
    assert_eq!(
        3isize.validate_range(None, None, None, Some(3)),
        Err(RangeError::ExclusiveMax {
            exclusive_max: 3,
            value: 3,
            code: RangeErrorCode,
            message: "value 3 is greater than or equal to exclusive maximum value 3".to_owned(),
        })
    );
    assert_eq!(
        'c'.validate_range(None, None, None, Some('c')),
        Err(RangeError::ExclusiveMax {
            exclusive_max: 'c',
            value: 'c',
            code: RangeErrorCode,
            message: "value c is greater than or equal to exclusive maximum value c".to_owned(),
        })
    );
    assert_eq!(
        "c".validate_range(None, None, None, Some("c")),
        Err(RangeError::ExclusiveMax {
            exclusive_max: "c",
            value: "c",
            code: RangeErrorCode,
            message: "value c is greater than or equal to exclusive maximum value c".to_owned(),
        })
    );


    assert_eq!(
        Some(3).validate_range(None, None, None, Some(3)),
        Err(RangeError::ExclusiveMax {
            exclusive_max: 3,
            value: 3,
            code: RangeErrorCode,
            message: "value 3 is greater than or equal to exclusive maximum value 3".to_owned(),
        })
    );

    #[allow(clippy::needless_borrow)]
    {
        assert_eq!(
            (&3).validate_range(None, None, None, Some(3)),
            Err(RangeError::ExclusiveMax {
                exclusive_max: 3,
                value: 3,
                code: RangeErrorCode,
                message: "value 3 is greater than or equal to exclusive maximum value 3"
                    .to_owned(),
            })
        );
    }
    #[allow(unused_allocation)]
    {
        assert_eq!(
            (Box::new(3)).validate_range(None, None, None, Some(3)),
            Err(RangeError::ExclusiveMax {
                exclusive_max: 3,
                value: 3,
                code: RangeErrorCode,
                message: "value 3 is greater than or equal to exclusive maximum value 3"
                    .to_owned(),
            })
        );
    }
    assert_eq!(
        (Arc::new(3)).validate_range(None, None, None, Some(3)),
        Err(RangeError::ExclusiveMax {
            exclusive_max: 3,
            value: 3,
            code: RangeErrorCode,
            message: "value 3 is greater than or equal to exclusive maximum value 3".to_owned(),
        })
    );
    assert_eq!(
        (Rc::new(3)).validate_range(None, None, None, Some(3)),
        Err(RangeError::ExclusiveMax {
            exclusive_max: 3,
            value: 3,
            code: RangeErrorCode,
            message: "value 3 is greater than or equal to exclusive maximum value 3".to_owned(),
        })
    );

    let cell = RefCell::new(3);
    assert_eq!(
        cell.borrow().validate_range(None, None, None, Some(3)),
        Err(RangeError::ExclusiveMax {
            exclusive_max: 3,
            value: 3,
            code: RangeErrorCode,
            message: "value 3 is greater than or equal to exclusive maximum value 3".to_owned(),
        })
    );
    assert_eq!(
        cell.borrow_mut().validate_range(None, None, None, Some(3)),
        Err(RangeError::ExclusiveMax {
            exclusive_max: 3,
            value: 3,
            code: RangeErrorCode,
            message: "value 3 is greater than or equal to exclusive maximum value 3".to_owned(),
        })
    );
}
