use julia::api::{Datatype, Exception, IntoSymbol, Julia, Ref, Symbol, Union};
use julia::error::Error;
use julia::version;

#[test]
fn classifier_reads_the_dynamic_type() {
    let mut jl = Julia::new(false).unwrap();
    let n = Ref::nothing(&mut jl);
    assert!(n.is_nothing(&jl));
    assert!(!n.is_bool(&jl));

    let b = jl.box_bool(true);
    assert!(b.is_bool(&jl));
    assert!(!b.is_nothing(&jl));

    let i = jl.box_i64(3);
    assert!(i.is_int64(&jl));
    assert!(!i.is_int8(&jl));
    assert!(!i.is_uint64(&jl));

    assert!(jl.box_i8(1).is_int8(&jl));
    assert!(jl.box_i16(1).is_int16(&jl));
    assert!(jl.box_i32(1).is_int32(&jl));
    assert!(jl.box_isize(1).is_long(&jl));
    assert!(jl.box_u8(1).is_uint8(&jl));
    assert!(jl.box_u16(1).is_uint16(&jl));
    assert!(jl.box_u32(1).is_uint32(&jl));
    assert!(jl.box_u64(1).is_uint64(&jl));
    assert!(jl.box_usize(1).is_ulong(&jl));

    let s = jl.box_str("text");
    assert!(s.is_string(&jl));

    let sym = Symbol::with_name(&mut jl, "name").unwrap();
    assert!(sym.0.is_symbol(&jl));
    let g = Symbol::gensym(&mut jl);
    assert!(g.0.is_symbol(&jl));
    let root = Symbol::get_root(&mut jl);
    assert!(root.0.is_symbol(&jl));

    let sv = julia::api::Svec::empty(&mut jl);
    assert!(sv.0.is_svec(&jl));
    assert!(sv.0.is_simplevector(&jl));

    let m = jl.main();
    assert!(m.0.is_module(&jl));

    let dt = Datatype::any(&mut jl);
    assert!(dt.0.is_datatype(&jl));
    assert!(dt.0.is_type(&jl));
    assert!(dt.0.is_abstracttype(&jl));
    assert!(dt.0.is_immutable_datatype(&jl));

    let i8t = Datatype::int8(&mut jl);
    assert!(i8t.0.is_primitivetype(&jl));
}

#[test]
fn classifier_degrades_to_false_on_poison() {
    let mut jl = Julia::new(false).unwrap();
    let i = jl.box_i64(3);
    assert!(i.is_int64(&jl));
    i.poison(&mut jl);
    assert!(!i.is_int64(&jl));
    assert!(!i.is_nothing(&jl));
}

#[test]
fn typenames_match_the_kinds() {
    let mut jl = Julia::new(false).unwrap();
    let cases = [
        (Ref::nothing(&mut jl), "Nothing"),
        (jl.box_bool(true), "Bool"),
        (jl.box_char('x'), "Char"),
        (jl.box_i8(1), "Int8"),
        (jl.box_i64(1), "Int64"),
        (jl.box_isize(1), "Int64"),
        (jl.box_u64(1), "UInt64"),
        (jl.box_usize(1), "UInt64"),
        (jl.box_str("s"), "String"),
    ];
    for (v, want) in cases {
        assert_eq!(v.typename(&jl).unwrap(), want);
    }
    let sym = Symbol::with_name(&mut jl, "s").unwrap();
    assert_eq!(sym.0.typename(&jl).unwrap(), "Symbol");
    let m = jl.main();
    assert_eq!(m.0.typename(&jl).unwrap(), "Module");
    let dt = Datatype::bool(&mut jl);
    assert_eq!(dt.0.typename(&jl).unwrap(), "DataType");
}

#[test]
fn values_reflect_to_their_datatype() {
    let mut jl = Julia::new(false).unwrap();
    let v = jl.box_i64(5);
    let dt = v.datatype(&mut jl).unwrap();
    let int64 = Datatype::int64(&mut jl);
    assert!(dt.0.types_equal(&int64.0, &jl).unwrap());
    assert!(v.isa(&int64, &jl).unwrap());
    let boolt = Datatype::bool(&mut jl);
    assert!(!v.isa(&boolt, &jl).unwrap());
    let any = Datatype::any(&mut jl);
    assert!(v.isa(&any, &jl).unwrap());
    // Types compare by name, not by handle identity.
    let int64b = Datatype::int64(&mut jl);
    assert!(int64.0.types_equal(&int64b.0, &jl).unwrap());
    assert!(!int64.0.types_equal(&boolt.0, &jl).unwrap());
}

#[test]
fn unions_collect_their_components() {
    let mut jl = Julia::new(false).unwrap();
    let a = Datatype::int64(&mut jl);
    let b = Datatype::bool(&mut jl);
    let u = Union::union(&mut jl, &vec![a, b]).unwrap();
    assert!(u.0.is_uniontype(&jl));
    assert!(u.0.is_type(&jl));
    assert_eq!(u.0.typename(&jl).unwrap(), "Union");
}

#[test]
fn gc_switch_toggles() {
    let mut jl = Julia::new(false).unwrap();
    assert!(jl.gc().is_enabled());
    jl.gc_mut().enable(false);
    assert!(!jl.gc().is_enabled());
    jl.gc_mut().collect(true);
    assert!(!jl.gc().is_enabled());
    jl.gc_mut().enable(true);
    assert!(jl.gc().is_enabled());
}

#[test]
fn versions_shorten() {
    let v = version::get();
    assert_eq!(v.name, "julia-rs");
    assert_eq!((v.major, v.minor, v.patch), (version::MAJOR, version::MINOR, version::PATCH));
    let s = v.shorten();
    assert!(s.branch.is_none());
    assert!(s.commit.is_none());
    assert_eq!(s.name, "julia-rs");

    let jl = Julia::new(false).unwrap();
    let rv = jl.version();
    assert_eq!(rv.name, "julia");
    assert_eq!(rv.major, 0);
    jl.exit(0);
}

#[test]
fn errors_describe_themselves() {
    for e in [
        Error::InvalidUnbox,
        Error::NotAFunction,
        Error::CallError,
        Error::EvalError,
        Error::NullPointer,
        Error::InvalidSymbol,
        Error::JuliaInitialized,
        Error::PoisonError,
        Error::ResourceInUse,
    ] {
        assert!(!e.description().is_empty());
    }
}

#[test]
fn symbols_validate_their_names() {
    let mut jl = Julia::new(false).unwrap();
    assert!(Symbol::with_name(&mut jl, "x").is_ok());
    assert!(Symbol::with_name(&mut jl, "_private").is_ok());
    assert!(Symbol::with_name(&mut jl, "push!").is_ok());
    assert!(Symbol::with_name(&mut jl, "A9_b").is_ok());
    assert!(Symbol::with_name(&mut jl, "αβ").is_ok());
    assert!(Symbol::with_name(&mut jl, "übung").is_ok());
    assert!(matches!(Symbol::with_name(&mut jl, ""), Err(Error::InvalidSymbol)));
    assert!(matches!(Symbol::with_name(&mut jl, "9x"), Err(Error::InvalidSymbol)));
    assert!(matches!(Symbol::with_name(&mut jl, "a b"), Err(Error::InvalidSymbol)));
    assert!(matches!(Symbol::with_name(&mut jl, "!bang"), Err(Error::InvalidSymbol)));
    assert!("ok_name".into_symbol(&mut jl).is_ok());
    assert!(String::from("ok2").into_symbol(&mut jl).is_ok());
    assert!(matches!("2bad".into_symbol(&mut jl), Err(Error::InvalidSymbol)));
}

#[test]
fn equal_names_intern_to_the_same_symbol() {
    let mut jl = Julia::new(false).unwrap();
    let s1 = Symbol::with_name(&mut jl, "shared").unwrap();
    let s2 = Symbol::with_name(&mut jl, "shared").unwrap();
    let a1 = s1.0.lock(&jl).unwrap();
    let a2 = s2.0.lock(&jl).unwrap();
    assert_eq!(a1, a2);
    // The handles are distinct owners of the same interned symbol.
    assert_ne!(s1.0, s2.0);
    // A different name interns elsewhere.
    let s3 = Symbol::with_name(&mut jl, "other").unwrap();
    assert_ne!(a1, s3.0.lock(&jl).unwrap());
    // Interning also answers through the trait constructors.
    let s4 = "shared".into_symbol(&mut jl).unwrap();
    assert_eq!(a1, s4.0.lock(&jl).unwrap());
}

#[test]
fn symbol_names_read_back() {
    let mut jl = Julia::new(false).unwrap();
    let s = Symbol::with_name(&mut jl, "roundtrip").unwrap();
    assert_eq!(s.name(&jl).unwrap(), "roundtrip");
    let g = Symbol::gensym(&mut jl);
    assert!(matches!(g.name(&jl), Err(Error::InvalidSymbol)));
}

#[test]
fn instances_are_instances_of_their_supertypes() {
    let mut jl = Julia::new(false).unwrap();
    let v = jl.box_i64(5);
    let signed = Datatype::signed(&mut jl);
    assert!(v.isa(&signed, &jl).unwrap());
    let number = Datatype::number(&mut jl);
    assert!(v.isa(&number, &jl).unwrap());
    let float = Datatype::abstract_float(&mut jl);
    assert!(!v.isa(&float, &jl).unwrap());
    let b = jl.box_bool(true);
    assert!(b.isa(&signed, &jl).unwrap());
    let u = jl.box_u8(1);
    assert!(u.isa(&number, &jl).unwrap());
    assert!(!u.isa(&signed, &jl).unwrap());
}

#[test]
fn a_null_fault_slot_counts_as_empty() {
    let mut jl = Julia::new(false).unwrap();
    jl.pending = Some(0);
    assert!(!Exception::occurred(&jl));
    assert!(Exception::catch(&mut jl).is_none());
    assert!(!Exception::occurred(&jl));
}

#[test]
fn expressions_keep_their_text() {
    let mut jl = Julia::new(false).unwrap();
    let e = julia::api::Expr::with_string(&mut jl, "f(x) = 2x").unwrap();
    assert!(e.0.is_expr(&jl));
    assert_eq!(e.0.typename(&jl).unwrap(), "Expr");
}

#[test]
fn extern_declarations_spell_the_ccall() {
    let args = vec![(String::from("x"), String::from("Float64"))];
    let d = julia::ext::decl_jl("libsquare", "square", &args, "Float64");
    assert_eq!(
        d,
        "function square(x::Float64, )\n    ccall((:square, \"libsquare\"), Float64, (Float64,), x,)\nend"
    );
    let two = vec![
        (String::from("a"), String::from("Int64")),
        (String::from("b"), String::from("Int64")),
    ];
    let d2 = julia::ext::decl_jl("libm", "add2", &two, "Int64");
    assert_eq!(
        d2,
        "function add2(a::Int64, b::Int64, )\n    ccall((:add2, \"libm\"), Int64, (Int64,Int64,), a,b,)\nend"
    );
    let d0 = julia::ext::decl_jl("lib", "f", &vec![], "Void");
    assert_eq!(d0, "function f()\n    ccall((:f, \"lib\"), Void, (), )\nend");
}

#[test]
fn tasks_wrap_their_start_function() {
    let mut jl = Julia::new(false).unwrap();
    let f = julia::api::Function(jl.wrap_value(julia::api::heap::JlData::Func(String::from("go"))));
    let t = julia::api::Task::with_function(&mut jl, &f).unwrap();
    assert!(t.0.is_task(&jl));
}
