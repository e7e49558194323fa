use julia::api::exception::{
    bounds_error, eof_error, error, error_format, exception, exception_format, too_few_args,
    too_many_args, type_error, undefined_var_error,
};
use julia::api::heap::{JlData, StructData};
use julia::api::{Exception, Julia, TypeBuilder};
use julia::error::Error;

/// Evaluating `sqrt(-1.0)` raises a domain-style fault; `[][1]` raises a
/// bounds-style fault.  Each foreign evaluation is simulated by raising
/// the fault object the runtime would raise and absorbing the call
/// through the bridge.
#[test]
fn classification_of_two_faults() {
    let mut jl = Julia::new(false).unwrap();
    let domain = TypeBuilder::new(&jl).name("DomainError").build(&mut jl).unwrap();
    let bounds = TypeBuilder::new(&jl).name("BoundsError").build(&mut jl).unwrap();

    // "sqrt(-1.0)"
    let fault = domain.new_struct(&mut jl, &vec![]).unwrap();
    jl.raise(&fault).unwrap();
    assert!(Exception::occurred(&jl));
    let r1 = jl.bridge(0);
    assert!(matches!(r1, Err(Error::UnhandledException(Exception::Domain(_)))));
    assert!(!Exception::occurred(&jl));

    // "[][1]"
    let fault = bounds.new_struct(&mut jl, &vec![]).unwrap();
    jl.raise(&fault).unwrap();
    let r2 = jl.bridge(0);
    assert!(matches!(r2, Err(Error::UnhandledException(Exception::Bounds(_)))));
    assert!(!Exception::occurred(&jl));

    // The two variants differ.
    assert!(!matches!(r2, Err(Error::UnhandledException(Exception::Domain(_)))));
}

#[test]
fn classification_is_by_type_name() {
    let mut jl = Julia::new(false).unwrap();
    let cases: [(&str, fn(&Exception) -> bool); 6] = [
        ("ArgumentError", |e| matches!(e, Exception::Argument(_))),
        ("KeyError", |e| matches!(e, Exception::Key(_))),
        ("UndefVarError", |e| matches!(e, Exception::UndefVar(_))),
        ("OverflowError", |e| matches!(e, Exception::Overflow(_))),
        ("TypeError", |e| matches!(e, Exception::Type(_))),
        ("SomethingNew", |e| matches!(e, Exception::Unknown(_))),
    ];
    for (name, check) in cases {
        let v = jl.wrap_value(JlData::StructVal(StructData {
            ty: 0,
            typename: String::from(name),
            fields: vec![],
        }));
        let ex = Exception::with_value(v, &jl).unwrap();
        assert!(check(&ex), "misclassified {}", name);
    }
}

#[test]
fn bridge_passes_clean_results_through() {
    let mut jl = Julia::new(false).unwrap();
    let v = jl.box_i64(7);
    let addr = v.into_inner(&mut jl).unwrap();
    let r = jl.bridge(addr).unwrap();
    assert_eq!(jl.unbox_i64(&r), Ok(7));
    // A null return with no pending fault is rejected.
    assert!(matches!(jl.bridge(0), Err(Error::NullPointer)));
}

#[test]
fn catch_drains_the_slot_exactly_once() {
    let mut jl = Julia::new(false).unwrap();
    assert!(Exception::catch(&mut jl).is_none());
    error(&mut jl, "boom");
    assert!(Exception::occurred(&jl));
    let ex = Exception::catch(&mut jl).unwrap();
    assert!(matches!(ex, Exception::Error(_)));
    assert!(!Exception::occurred(&jl));
    assert!(Exception::catch(&mut jl).is_none());
}

#[test]
fn raised_faults_carry_their_type() {
    let mut jl = Julia::new(false).unwrap();
    let keyerr = TypeBuilder::new(&jl).name("KeyError").build(&mut jl).unwrap();
    exception(&mut jl, &keyerr, "no such key").unwrap();
    let ex = Exception::catch(&mut jl).unwrap();
    assert!(matches!(ex, Exception::Key(_)));

    exception_format(&mut jl, &keyerr, "again").unwrap();
    assert!(matches!(jl.bridge(0), Err(Error::UnhandledException(Exception::Key(_)))));

    error_format(&mut jl, "formatted");
    assert!(matches!(jl.bridge(0), Err(Error::UnhandledException(Exception::Error(_)))));
}

#[test]
fn specific_raisers_classify_as_their_kind() {
    let mut jl = Julia::new(false).unwrap();
    too_few_args(&mut jl, "f", 2);
    assert!(matches!(Exception::catch(&mut jl), Some(Exception::Argument(_))));
    too_many_args(&mut jl, "f", 3);
    assert!(matches!(Exception::catch(&mut jl), Some(Exception::Argument(_))));
    type_error(&mut jl, "g");
    assert!(matches!(Exception::catch(&mut jl), Some(Exception::Type(_))));
    undefined_var_error(&mut jl, "x");
    assert!(matches!(Exception::catch(&mut jl), Some(Exception::UndefVar(_))));
    bounds_error(&mut jl, "index 9");
    assert!(matches!(Exception::catch(&mut jl), Some(Exception::Bounds(_))));
    eof_error(&mut jl);
    assert!(matches!(Exception::catch(&mut jl), Some(Exception::EOF(_))));
    assert!(!Exception::occurred(&jl));
}

#[test]
fn exception_accessors_unwrap_the_value() {
    let mut jl = Julia::new(false).unwrap();
    let v = jl.wrap_value(JlData::StructVal(StructData {
        ty: 0,
        typename: String::from("DivideError"),
        fields: vec![],
    }));
    let mut ex = Exception::with_value(v, &jl).unwrap();
    assert!(matches!(ex, Exception::Divide(_)));
    let addr = ex.inner_ref().lock(&jl).unwrap();
    let addr2 = ex.inner_mut().lock(&jl).unwrap();
    assert_eq!(addr, addr2);
    let inner = ex.into_inner();
    assert_eq!(inner.lock(&jl), Ok(addr));
}
