use julia::api::{Datatype, Exception, Julia, Svec, Symbol, Type, TypeBuilder};
use julia::error::Error;

#[test]
fn parametric_types_apply() {
    let mut jl = Julia::new(false).unwrap();
    let complex = Type(Datatype::complex(&mut jl).0);
    let int64 = Datatype::int64(&mut jl);
    let t = complex.apply_type1(&mut jl, &int64.0).unwrap();
    assert!(t.0.is_datatype(&jl));
    assert_eq!(t.0.typename(&jl).unwrap(), "DataType");

    let a = Datatype::int64(&mut jl);
    let b = Datatype::bool(&mut jl);
    let pair = TypeBuilder::new(&jl).name("TwoParam").build(&mut jl).unwrap();
    let t2 = Type(pair.0).apply_type2(&mut jl, &a.0, &b.0).unwrap();
    assert!(t2.0.is_datatype(&jl));

    let base = TypeBuilder::new(&jl).name("ManyParam").build(&mut jl).unwrap();
    let p1 = Datatype::int8(&mut jl);
    let t3 = Type(base.0).apply_type(&mut jl, &vec![p1.0]).unwrap();
    assert!(t3.0.is_datatype(&jl));

    // A poisoned parameter stops the application.
    let bad = jl.box_i64(0);
    bad.poison(&mut jl);
    let c = Type(Datatype::complex(&mut jl).0);
    assert!(matches!(c.apply_type1(&mut jl, &bad), Err(Error::PoisonError)));
}

#[test]
fn primitive_type_builds() {
    let mut jl = Julia::new(false).unwrap();
    let dt = TypeBuilder::new(&jl)
        .primitive(true)
        .name("MyBits")
        .nbits(16)
        .build(&mut jl)
        .unwrap();
    assert!(dt.0.is_primitivetype(&jl));
    assert!(dt.0.is_datatype(&jl));
    assert_eq!(dt.0.typename(&jl).unwrap(), "DataType");
}

#[test]
fn primitive_type_needs_a_whole_number_of_bytes() {
    let mut jl = Julia::new(false).unwrap();
    let r = TypeBuilder::new(&jl)
        .primitive(true)
        .name("Odd")
        .nbits(7)
        .build(&mut jl);
    assert!(matches!(r, Err(Error::UnhandledException(Exception::Error(_)))));
    let r = TypeBuilder::new(&jl).primitive(true).name("ZeroWide").build(&mut jl);
    assert!(matches!(r, Err(Error::UnhandledException(Exception::Error(_)))));
}

#[test]
fn setter_errors_are_latched_and_short_circuit() {
    let mut jl = Julia::new(false).unwrap();
    let b = TypeBuilder::new(&jl).name("9bad");
    assert!(b.is_err());
    assert!(matches!(b.err(), Some(Error::InvalidSymbol)));
    assert!(matches!(b.build(&mut jl), Err(Error::InvalidSymbol)));
}

#[test]
fn unnamed_build_fails() {
    let mut jl = Julia::new(false).unwrap();
    assert!(matches!(TypeBuilder::new(&jl).build(&mut jl), Err(Error::NullPointer)));
}

#[test]
fn abstract_type_builds() {
    let mut jl = Julia::new(false).unwrap();
    let number = Datatype::number(&mut jl);
    let dt = TypeBuilder::new(&jl)
        .abstrac(true)
        .name("MyKind")
        .supertype(&jl, &number)
        .build(&mut jl)
        .unwrap();
    assert!(dt.0.is_abstracttype(&jl));
    assert!(!dt.0.is_structtype(&jl));
}

#[test]
fn struct_type_builds_and_instantiates() {
    let mut jl = Julia::new(false).unwrap();
    let sa = Symbol::with_name(&mut jl, "re").unwrap();
    let sb = Symbol::with_name(&mut jl, "im").unwrap();
    let fnames = Svec::pair(&mut jl, &sa.0, &sb.0).unwrap();
    let i64t = Datatype::int64(&mut jl);
    let i64t2 = Datatype::int64(&mut jl);
    let ftypes = Svec::pair(&mut jl, &i64t.0, &i64t2.0).unwrap();
    let dt = TypeBuilder::new(&jl)
        .mutable(true)
        .name("Pair64")
        .fnames(&jl, &fnames)
        .ftypes(&jl, &ftypes)
        .build(&mut jl)
        .unwrap();
    assert!(dt.0.is_structtype(&jl));
    assert!(dt.0.is_mutable_datatype(&jl));

    let one = jl.box_i64(1);
    let two = jl.box_i64(2);
    let inst = dt.new_struct(&mut jl, &vec![one, two]).unwrap();
    assert_eq!(inst.typename(&jl).unwrap(), "Pair64");

    // Field access by symbol.
    let re = inst.get(&mut jl, &sa).unwrap();
    assert_eq!(jl.unbox_i64(&re), Ok(1));
    let nine = jl.box_i64(9);
    inst.set(&mut jl, &sb, &nine).unwrap();
    let im = inst.get(&mut jl, &sb).unwrap();
    assert_eq!(jl.unbox_i64(&im), Ok(9));

    // No such field.
    let nope = Symbol::with_name(&mut jl, "nope").unwrap();
    assert!(matches!(inst.get(&mut jl, &nope), Err(Error::InvalidSymbol)));
    let z = jl.box_i64(0);
    assert!(matches!(inst.set(&mut jl, &nope, &z), Err(Error::InvalidSymbol)));

    // The instance reflects back to its datatype.
    let back = inst.datatype(&mut jl).unwrap();
    assert!(back.0.types_equal(&dt.0, &jl).unwrap());
    assert!(inst.isa(&dt, &jl).unwrap());
}

#[test]
fn struct_arity_mismatch_is_a_type_fault() {
    let mut jl = Julia::new(false).unwrap();
    let sa = Symbol::with_name(&mut jl, "v").unwrap();
    let fnames = Svec::singleton(&mut jl, &sa.0).unwrap();
    let dt = TypeBuilder::new(&jl)
        .name("OneField")
        .fnames(&jl, &fnames)
        .build(&mut jl)
        .unwrap();
    let r = dt.new_struct(&mut jl, &vec![]);
    assert!(matches!(r, Err(Error::UnhandledException(Exception::Type(_)))));
}

#[test]
fn field_names_must_be_symbols() {
    let mut jl = Julia::new(false).unwrap();
    let one = jl.box_i64(1);
    let fnames = Svec::singleton(&mut jl, &one).unwrap();
    let r = TypeBuilder::new(&jl)
        .name("BadFields")
        .fnames(&jl, &fnames)
        .build(&mut jl);
    assert!(matches!(r, Err(Error::UnhandledException(Exception::Type(_)))));
}
