use julia::api::{Datatype, Julia, Svec, Tuple, Type, Union, UnionAll};
use julia::error::Error;

#[test]
fn intersection_keeps_the_common_components() {
    let mut jl = Julia::new(false).unwrap();
    let a = Datatype::int64(&mut jl);
    let b = Datatype::bool(&mut jl);
    let c = Datatype::char(&mut jl);
    let u1 = Union::union(&mut jl, &vec![a, b]).unwrap();
    let b2 = Datatype::bool(&mut jl);
    let u2 = Union::union(&mut jl, &vec![b2, c]).unwrap();

    let inter = Union::intersection(&mut jl, &u1, &u2).unwrap();
    assert!(inter.0.is_uniontype(&jl));
    assert!(!Union::has_empty_intersection(&jl, &u1, &u2).unwrap());
    // Exactly the shared component survives, and it is the Bool type.
    let ia = inter.0.lock(&jl).unwrap();
    match jl.store.get(ia) {
        Some(julia::api::heap::JlData::UnionTy(v)) => {
            assert_eq!(v.len(), 1);
            let comp = v[0];
            match jl.store.get(comp) {
                Some(julia::api::heap::JlData::Dty(d)) => assert_eq!(d.name, "Bool"),
                other => panic!("unexpected component {:?}", other),
            }
        }
        other => panic!("unexpected intersection {:?}", other),
    }

    // Disjoint unions intersect to nothing.
    let x = Datatype::int8(&mut jl);
    let y = Datatype::int16(&mut jl);
    let u3 = Union::union(&mut jl, &vec![x]).unwrap();
    let u4 = Union::union(&mut jl, &vec![y]).unwrap();
    assert!(Union::has_empty_intersection(&jl, &u3, &u4).unwrap());
    let empty = Union::intersection(&mut jl, &u3, &u4).unwrap();
    assert!(empty.0.is_uniontype(&jl));
}

#[test]
fn intersection_fails_through_a_poisoned_guard() {
    let mut jl = Julia::new(false).unwrap();
    let a = Datatype::int64(&mut jl);
    let u1 = Union::union(&mut jl, &vec![a]).unwrap();
    let b = Datatype::bool(&mut jl);
    let u2 = Union::union(&mut jl, &vec![b]).unwrap();
    u2.0.poison(&mut jl);
    assert!(matches!(
        Union::intersection(&mut jl, &u1, &u2),
        Err(Error::PoisonError)
    ));
    assert!(matches!(
        Union::has_empty_intersection(&jl, &u1, &u2),
        Err(Error::PoisonError)
    ));
}

#[test]
fn tuple_types_collect_their_components() {
    let mut jl = Julia::new(false).unwrap();
    let a = Datatype::int64(&mut jl);
    let b = Datatype::bool(&mut jl);
    let sv = Svec::pair(&mut jl, &a.0, &b.0).unwrap();
    let t = Tuple::apply(&mut jl, &sv).unwrap();
    assert!(t.0.is_datatype(&jl));
    assert_eq!(t.0.typename(&jl).unwrap(), "DataType");
}

#[test]
fn unionall_instantiation_fixes_a_parameter() {
    let mut jl = Julia::new(false).unwrap();
    let complex = UnionAll(Datatype::complex(&mut jl).0);
    let int64 = Datatype::int64(&mut jl);
    let t = complex.instantiate(&mut jl, &int64.0).unwrap();
    assert!(t.0.is_datatype(&jl));

    let bad = jl.box_i64(0);
    bad.poison(&mut jl);
    let c2 = UnionAll(Datatype::complex(&mut jl).0);
    assert!(matches!(c2.instantiate(&mut jl, &bad), Err(Error::PoisonError)));
}

#[test]
fn raw_bits_instantiate_a_primitive_type() {
    let mut jl = Julia::new(false).unwrap();
    let i16t = Datatype::int16(&mut jl);
    let v = i16t.new_bits(&mut jl, vec![0x34, 0x12]).unwrap();
    assert_eq!(v.typename(&jl).unwrap(), "Int16");
    let dt = v.datatype(&mut jl).unwrap();
    assert!(dt.0.types_equal(&i16t.0, &jl).unwrap());
    let t = Type(i16t.0);
    assert!(t.0.is_primitivetype(&jl));
}
