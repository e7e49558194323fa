use julia::api::{Julia, Ref};
use julia::error::Error;

#[test]
fn null_rejection() {
    let mut jl = Julia::new(false).unwrap();
    let r = Ref::new(&mut jl, 0);
    assert!(matches!(r, Err(Error::NullPointer)));
}

#[test]
fn nonnull_wraps() {
    let mut jl = Julia::new(false).unwrap();
    let v = jl.box_i64(1);
    let addr = v.lock(&jl).unwrap();
    let w = Ref::new(&mut jl, addr).unwrap();
    assert_eq!(w.lock(&jl), Ok(addr));
}

#[test]
fn single_extraction() {
    let mut jl = Julia::new(false).unwrap();
    let v = jl.box_i64(5);
    let c = v.clone_ref(&mut jl);
    // Two clones share the cell: extraction through either fails.
    assert_eq!(c.into_inner(&mut jl), Err(Error::ResourceInUse));
    // The failed extraction spent that clone: the survivor is now sole
    // owner and extraction succeeds.
    assert!(v.into_inner(&mut jl).is_ok());
}

#[test]
fn single_extraction_after_release() {
    let mut jl = Julia::new(false).unwrap();
    let v = jl.box_i64(5);
    let c = v.clone_ref(&mut jl);
    assert_eq!(v.into_inner(&mut jl), Err(Error::ResourceInUse));
    c.release(&mut jl);
    // Both handles are gone now; wrap afresh and extract alone.
    let w = jl.box_i64(6);
    assert!(w.into_inner(&mut jl).is_ok());
}

#[test]
fn poisoning_propagates_to_clones() {
    let mut jl = Julia::new(false).unwrap();
    let v = jl.box_i64(5);
    let c = v.clone_ref(&mut jl);
    assert!(v.is_ok(&jl));
    v.poison(&mut jl);
    assert!(!v.is_ok(&jl));
    assert!(!c.is_ok(&jl));
    assert_eq!(v.lock(&jl), Err(Error::PoisonError));
    assert_eq!(c.lock(&jl), Err(Error::PoisonError));
    // Still poisoned on every later borrow.
    assert_eq!(c.lock(&jl), Err(Error::PoisonError));
    assert_eq!(jl.unbox_i64(&v), Err(Error::PoisonError));
    assert_eq!(v.into_inner(&mut jl), Err(Error::ResourceInUse));
    assert_eq!(c.into_inner(&mut jl), Err(Error::PoisonError));
}

#[test]
fn map_applies_through_clean_guard() {
    let mut jl = Julia::new(false).unwrap();
    let v = jl.box_i64(5);
    let addr = v.lock(&jl).unwrap();
    assert_eq!(v.map(&jl, |a| a).unwrap(), addr);
    assert_eq!(v.map_or(&jl, |a| a, 0), addr);
    assert_eq!(v.map_or_else(&jl, |a| a, |_| 0), addr);
    v.poison(&mut jl);
    assert_eq!(v.map(&jl, |a| a), Err(Error::PoisonError));
    assert_eq!(v.map_or(&jl, |a| a, 12345), 12345);
    assert_eq!(v.map_or_else(&jl, |a| a, |_| 777), 777);
}

#[test]
fn finalizers_register_and_run() {
    let mut jl = Julia::new(false).unwrap();
    let v = jl.box_i64(5);
    let f = jl.wrap_value(julia::api::heap::JlData::Func(String::from("noop")));
    v.add_finalizer(&f, &mut jl).unwrap();
    let w = jl.box_i64(6);
    assert!(w.finalize(&mut jl).is_ok());
    v.release(&mut jl);
}
