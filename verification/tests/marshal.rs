use julia::api::Julia;
use julia::error::Error;

#[test]
fn roundtrip_bool() {
    let mut jl = Julia::new(false).unwrap();
    for x in [false, true] {
        let v = jl.box_bool(x);
        assert_eq!(jl.unbox_bool(&v), Ok(x));
    }
}

#[test]
fn roundtrip_char() {
    let mut jl = Julia::new(false).unwrap();
    for x in ['a', '\0', 'é', '\u{10FFFF}'] {
        let v = jl.box_char(x);
        assert_eq!(jl.unbox_char(&v), Ok(x));
    }
}

#[test]
fn roundtrip_signed() {
    let mut jl = Julia::new(false).unwrap();
    for x in [0i8, 1, -1, i8::MAX, i8::MIN] {
        let v = jl.box_i8(x);
        assert_eq!(jl.unbox_i8(&v), Ok(x));
    }
    for x in [0i16, i16::MAX, i16::MIN] {
        let v = jl.box_i16(x);
        assert_eq!(jl.unbox_i16(&v), Ok(x));
    }
    for x in [0i32, i32::MAX, i32::MIN] {
        let v = jl.box_i32(x);
        assert_eq!(jl.unbox_i32(&v), Ok(x));
    }
    for x in [0i64, i64::MAX, i64::MIN] {
        let v = jl.box_i64(x);
        assert_eq!(jl.unbox_i64(&v), Ok(x));
    }
    for x in [0isize, isize::MAX, isize::MIN] {
        let v = jl.box_isize(x);
        assert_eq!(jl.unbox_isize(&v), Ok(x));
    }
}

#[test]
fn roundtrip_unsigned() {
    let mut jl = Julia::new(false).unwrap();
    for x in [0u8, u8::MAX] {
        let v = jl.box_u8(x);
        assert_eq!(jl.unbox_u8(&v), Ok(x));
    }
    for x in [0u16, u16::MAX] {
        let v = jl.box_u16(x);
        assert_eq!(jl.unbox_u16(&v), Ok(x));
    }
    for x in [0u32, u32::MAX] {
        let v = jl.box_u32(x);
        assert_eq!(jl.unbox_u32(&v), Ok(x));
    }
    for x in [0u64, u64::MAX] {
        let v = jl.box_u64(x);
        assert_eq!(jl.unbox_u64(&v), Ok(x));
    }
    for x in [0usize, usize::MAX] {
        let v = jl.box_usize(x);
        assert_eq!(jl.unbox_usize(&v), Ok(x));
    }
}

#[test]
fn roundtrip_string() {
    let mut jl = Julia::new(false).unwrap();
    for x in ["", "hello", "åäö"] {
        let v = jl.box_str(x);
        assert_eq!(jl.unbox_string(&v).unwrap(), x);
    }
}

#[test]
fn unbox_wrong_kind_fails() {
    let mut jl = Julia::new(false).unwrap();
    let v = jl.box_i64(42);
    assert_eq!(jl.unbox_bool(&v), Err(Error::InvalidUnbox));
    assert_eq!(jl.unbox_u64(&v), Err(Error::InvalidUnbox));
    let b = jl.box_bool(true);
    assert_eq!(jl.unbox_i64(&b), Err(Error::InvalidUnbox));
    assert!(matches!(jl.unbox_string(&b), Err(Error::InvalidUnbox)));
}
