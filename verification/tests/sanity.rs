use julia::api::{Exception, Julia};

#[test]
fn sanity() {
    let jl = Julia::new(false).unwrap();
    assert!(jl.is_initialized());
    assert!(!Exception::occurred(&jl));
    jl.exit(0);
}

#[test]
fn lib_sanity() {
    let _jl = Julia::new(false);
}

#[test]
fn double_initialization_fails() {
    let r = Julia::new(true);
    assert!(matches!(r, Err(julia::error::Error::JuliaInitialized)));
}
