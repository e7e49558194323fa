use julia::api::{Datatype, Exception, Julia, Svec};
use julia::error::Error;

#[test]
fn empty_vector_has_length_zero() {
    let mut jl = Julia::new(false).unwrap();
    let sv = Svec::empty(&mut jl);
    assert_eq!(sv.len(&jl), Ok(0));
    assert!(sv.is_empty(&jl));
}

#[test]
fn singleton_vector() {
    let mut jl = Julia::new(false).unwrap();
    let one = jl.box_i64(1);
    let sv = Svec::singleton(&mut jl, &one).unwrap();
    assert_eq!(sv.len(&jl), Ok(1));
    assert!(!sv.is_empty(&jl));
    let e = sv.index(&mut jl, 0).unwrap();
    assert_eq!(jl.unbox_i64(&e), Ok(1));
}

#[test]
fn pair_vector() {
    let mut jl = Julia::new(false).unwrap();
    let a = jl.box_i64(1);
    let b = jl.box_i64(2);
    let sv = Svec::pair(&mut jl, &a, &b).unwrap();
    assert_eq!(sv.len(&jl), Ok(2));
    let e1 = sv.index(&mut jl, 1).unwrap();
    assert_eq!(jl.unbox_i64(&e1), Ok(2));
}

#[test]
fn nary_vector_keeps_insertion_order() {
    let mut jl = Julia::new(false).unwrap();
    let mut elems = Vec::new();
    for x in 1..=4i64 {
        elems.push(jl.box_i64(x));
    }
    let sv = Svec::from_refs(&mut jl, &elems).unwrap();
    assert_eq!(sv.len(&jl), Ok(4));
    for i in 0..4usize {
        let e = sv.index(&mut jl, i).unwrap();
        assert_eq!(jl.unbox_i64(&e), Ok(i as i64 + 1));
    }
}

#[test]
fn filled_vector_repeats_the_element() {
    let mut jl = Julia::new(false).unwrap();
    let one = jl.box_i64(1);
    let sv = Svec::filled(&mut jl, 8, &one).unwrap();
    assert_eq!(sv.len(&jl), Ok(8));
    for i in 0..8usize {
        let e = sv.index(&mut jl, i).unwrap();
        assert_eq!(jl.unbox_i64(&e), Ok(1));
    }
}

#[test]
fn vector_as_vec_snapshots_elements() {
    let mut jl = Julia::new(false).unwrap();
    let a = jl.box_i64(10);
    let b = jl.box_i64(20);
    let sv = Svec::pair(&mut jl, &a, &b).unwrap();
    let out = sv.as_vec(&mut jl).unwrap();
    assert_eq!(out.len(), 2);
    assert_eq!(jl.unbox_i64(&out[0]), Ok(10));
    assert_eq!(jl.unbox_i64(&out[1]), Ok(20));
}

#[test]
fn out_of_range_index_is_a_bounds_fault() {
    let mut jl = Julia::new(false).unwrap();
    let one = jl.box_i64(1);
    let sv = Svec::singleton(&mut jl, &one).unwrap();
    let r = sv.index(&mut jl, 1);
    assert!(matches!(r, Err(Error::UnhandledException(Exception::Bounds(_)))));
    assert!(!Exception::occurred(&jl));
    let two = jl.box_i64(2);
    let r = sv.index_set(&mut jl, 5, &two);
    assert!(matches!(r, Err(Error::UnhandledException(Exception::Bounds(_)))));
}

#[test]
fn vector_index_set_replaces_an_element() {
    let mut jl = Julia::new(false).unwrap();
    let a = jl.box_i64(1);
    let b = jl.box_i64(2);
    let sv = Svec::pair(&mut jl, &a, &b).unwrap();
    let nine = jl.box_i64(9);
    sv.index_set(&mut jl, 0, &nine).unwrap();
    let e = sv.index(&mut jl, 0).unwrap();
    assert_eq!(jl.unbox_i64(&e), Ok(9));
    let e = sv.index(&mut jl, 1).unwrap();
    assert_eq!(jl.unbox_i64(&e), Ok(2));
}

#[test]
fn arrays_hold_typed_elements() {
    let mut jl = Julia::new(false).unwrap();
    let int64 = Datatype::int64(&mut jl);
    let mut elems = Vec::new();
    for x in [3i64, 1, 4] {
        elems.push(jl.box_i64(x));
    }
    let arr = int64.new_array(&mut jl, &elems).unwrap();
    assert_eq!(arr.len(&jl), Ok(3));
    assert_eq!(arr.dim0(&jl), Ok(3));
    assert_eq!(arr.dim(&jl, 1), Ok(1));
    assert_eq!(arr.nrows(&jl), Ok(3));
    assert_eq!(arr.ndims(&jl), Ok(1));
    assert!(!arr.is_empty(&jl));
    let e = arr.index(&mut jl, 2).unwrap();
    assert_eq!(jl.unbox_i64(&e), Ok(4));
    let seven = jl.box_i64(7);
    arr.index_set(&mut jl, 1, &seven).unwrap();
    let out = arr.as_vec(&mut jl).unwrap();
    assert_eq!(jl.unbox_i64(&out[1]), Ok(7));
    let r = arr.index(&mut jl, 9);
    assert!(matches!(r, Err(Error::UnhandledException(Exception::Bounds(_)))));
}

#[test]
fn byte_arrays_borrow_and_copy() {
    let mut jl = Julia::new(false).unwrap();
    let v = jl.wrap_value(julia::api::heap::JlData::Bytes(vec![1u8, 2, 3]));
    let ba = julia::api::ByteArray(v);
    assert_eq!(ba.len(&jl), Ok(3));
    assert!(!ba.is_empty(&jl));
    assert_eq!(ba.as_slice(&jl).unwrap(), &[1u8, 2, 3]);
    assert_eq!(ba.as_vec(&jl).unwrap(), vec![1u8, 2, 3]);
    assert_eq!(ba.index(&mut jl, 1), Ok(2));
    ba.index_set(&mut jl, 1, 9).unwrap();
    assert_eq!(ba.index(&mut jl, 1), Ok(9));
    let r = ba.index(&mut jl, 3);
    assert!(matches!(r, Err(Error::UnhandledException(Exception::Bounds(_)))));
}
