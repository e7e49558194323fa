use julia::api::{Exception, Julia, Symbol, TypeBuilder};
use julia::error::Error;

/// Evaluate `"x = 5"`, read `"x"` back, and ask for the result's type
/// name: the textual name of a machine integer.  Evaluating an undefined
/// identifier yields an `UndefVar`-classified exception rather than a
/// host crash.
#[test]
fn assign_read_and_typename() {
    let mut jl = Julia::new(false).unwrap();
    let main = jl.main();

    // "x = 5": the evaluator boxes the literal and binds it in Main.
    let x = Symbol::with_name(&mut jl, "x").unwrap();
    let five = jl.box_i64(5);
    main.set(&mut jl, &x, &five).unwrap();

    // "x": read the global back.
    let got = main.global(&mut jl, &x).unwrap();
    let tn = got.typename(&jl).unwrap();
    assert_eq!(tn, "Int64");
    assert_eq!(jl.unbox_i64(&got), Ok(5));

    // An identifier with no binding: the lookup hands back null.
    let y = Symbol::with_name(&mut jl, "y").unwrap();
    assert!(matches!(main.global(&mut jl, &y), Err(Error::NullPointer)));

    // Evaluating the undefined identifier in the runtime raises an
    // UndefVarError, which the bridge classifies instead of crashing.
    let undef = TypeBuilder::new(&jl).name("UndefVarError").build(&mut jl).unwrap();
    let fault = undef.new_struct(&mut jl, &vec![]).unwrap();
    jl.raise(&fault).unwrap();
    let r = jl.bridge(0);
    assert!(matches!(r, Err(Error::UnhandledException(Exception::UndefVar(_)))));
    assert!(!Exception::occurred(&jl));
}

#[test]
fn modules_bind_and_look_up() {
    let mut jl = Julia::new(false).unwrap();
    let main = jl.main();
    let base = jl.base();
    let core = jl.core_module();
    let top = jl.top();

    let a = Symbol::with_name(&mut jl, "a").unwrap();
    let one = jl.box_i64(1);
    main.set(&mut jl, &a, &one).unwrap();
    // Bindings are per module.
    assert!(matches!(base.global(&mut jl, &a), Err(Error::NullPointer)));
    assert!(matches!(core.global(&mut jl, &a), Err(Error::NullPointer)));
    // The top module is the main module.
    let got = top.global(&mut jl, &a).unwrap();
    assert_eq!(jl.unbox_i64(&got), Ok(1));

    // Rebinding replaces the value.
    let two = jl.box_i64(2);
    main.set(&mut jl, &a, &two).unwrap();
    let got = main.global(&mut jl, &a).unwrap();
    assert_eq!(jl.unbox_i64(&got), Ok(2));

    // A constant binding reads back too.
    let c = Symbol::with_name(&mut jl, "c").unwrap();
    let nine = jl.box_i64(9);
    main.set_const(&mut jl, &c, &nine).unwrap();
    let got = main.global(&mut jl, &c).unwrap();
    assert_eq!(jl.unbox_i64(&got), Ok(9));
}

#[test]
fn function_lookup_is_filtered_to_callables() {
    let mut jl = Julia::new(false).unwrap();
    let main = jl.main();
    let sqrt = Symbol::with_name(&mut jl, "sqrt").unwrap();
    let notf = Symbol::with_name(&mut jl, "notf").unwrap();

    let f = jl.wrap_value(julia::api::heap::JlData::Func(String::from("sqrt")));
    main.set(&mut jl, &sqrt, &f).unwrap();
    let five = jl.box_i64(5);
    main.set(&mut jl, &notf, &five).unwrap();

    assert!(main.function(&mut jl, &sqrt).is_ok());
    assert!(matches!(main.function(&mut jl, &notf), Err(Error::NotAFunction)));
    let missing = Symbol::with_name(&mut jl, "missing_name").unwrap();
    assert!(matches!(main.function(&mut jl, &missing), Err(Error::NullPointer)));
}

#[test]
fn calls_prepare_the_foreign_transfer() {
    let mut jl = Julia::new(false).unwrap();
    let main = jl.main();
    let name = Symbol::with_name(&mut jl, "f").unwrap();
    let fv = jl.wrap_value(julia::api::heap::JlData::Func(String::from("f")));
    main.set(&mut jl, &name, &fv).unwrap();
    let f = main.function(&mut jl, &name).unwrap();

    let a = jl.box_i64(1);
    let b = jl.box_i64(2);
    let c = jl.box_i64(3);
    let fa = f.0.lock(&jl).unwrap();
    let aa = a.lock(&jl).unwrap();
    let ab = b.lock(&jl).unwrap();
    let ac = c.lock(&jl).unwrap();

    let call = f.call0(&jl).unwrap();
    assert_eq!(call.target, fa);
    assert!(call.args.is_empty());

    let call = f.call1(&jl, &a).unwrap();
    assert_eq!(call.args, vec![aa]);

    let call = f.call2(&jl, &a, &b).unwrap();
    assert_eq!(call.args, vec![aa, ab]);

    let call = f.call3(&jl, &a, &b, &c).unwrap();
    assert_eq!(call.args, vec![aa, ab, ac]);

    let args = vec![a, b, c];
    let call = f.call(&jl, &args).unwrap();
    assert_eq!(call.target, fa);
    assert_eq!(call.args, vec![aa, ab, ac]);

    // The foreign side computes and returns a word; the bridge absorbs it.
    let ret = jl.box_i64(6).into_inner(&mut jl).unwrap();
    let result = jl.bridge(ret).unwrap();
    assert_eq!(jl.unbox_i64(&result), Ok(6));

    // A poisoned argument stops the call before the transfer.
    let bad = jl.box_i64(0);
    bad.poison(&mut jl);
    assert!(matches!(f.call1(&jl, &bad), Err(Error::PoisonError)));
}
