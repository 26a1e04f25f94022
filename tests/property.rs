use bevy_property::{
    coercion, collect_props, Coercion, Properties, PropertiesType, Property, PropertyError,
    Serializable, Value, ValueKind,
};

#[test]
fn sequence_patch_shorter_source() {
    let mut target: Vec<i32> = vec![1, 2, 3];
    let source: Vec<i32> = vec![10, 20];
    assert_eq!(target.set(&source.clone_prop()), Ok(()));
    assert_eq!(target, vec![10, 20, 3]);
}

#[test]
fn narrowing_cast_onto_u8() {
    let mut a: u8 = 5;
    assert_eq!(a.set(&Value::I32(300)), Ok(()));
    assert_eq!(a, 44);
}

#[test]
fn two_onto_five_patches_prefix() {
    let mut target: Vec<u16> = vec![1, 2, 3, 4, 5];
    let source = Value::List(vec![Value::U16(7), Value::U16(8)]);
    assert_eq!(target.apply(&source), Ok(()));
    assert_eq!(target, vec![7, 8, 3, 4, 5]);
}

#[test]
fn five_onto_two_ignores_rest() {
    let mut target: Vec<u16> = vec![1, 2];
    let source: Vec<u16> = vec![9, 8, 7, 6, 5];
    assert_eq!(target.set(&source.clone_prop()), Ok(()));
    assert_eq!(target, vec![9, 8]);
}

#[test]
fn clone_then_apply_is_identity() {
    let mut a: u64 = 123_456_789_012;
    let c = a.clone_prop();
    assert_eq!(a.set(&c), Ok(()));
    assert_eq!(a, 123_456_789_012);

    let mut b: i8 = -17;
    let c = b.clone_prop();
    assert_eq!(b.set(&c), Ok(()));
    assert_eq!(b, -17);

    let mut t = true;
    let c = t.clone_prop();
    assert_eq!(t.set(&c), Ok(()));
    assert!(t);

    let mut s = String::from("hello");
    let c = s.clone_prop();
    assert_eq!(s.set(&c), Ok(()));
    assert_eq!(s, "hello");

    let mut v: Vec<Vec<isize>> = vec![vec![-1, 2], vec![], vec![3]];
    let c = v.clone_prop();
    assert_eq!(v.set(&c), Ok(()));
    assert_eq!(v, vec![vec![-1, 2], vec![], vec![3]]);
}

#[test]
fn integer_casts_wrap_and_reinterpret() {
    let mut x: i8 = 0;
    assert_eq!(x.set(&Value::U64(u64::MAX)), Ok(()));
    assert_eq!(x, -1);

    let mut y: u16 = 0;
    assert_eq!(y.set(&Value::I32(-1)), Ok(()));
    assert_eq!(y, 65535);

    let mut z: usize = 0;
    assert_eq!(z.set(&Value::I8(-1)), Ok(()));
    assert_eq!(z, usize::MAX);

    let mut w: u32 = 0;
    assert_eq!(w.set(&Value::U64((1u64 << 32) + 5)), Ok(()));
    assert_eq!(w, 5);

    let mut q: i64 = 0;
    assert_eq!(q.set(&Value::U32(4_000_000_000)), Ok(()));
    assert_eq!(q, 4_000_000_000);

    let mut r: isize = 0;
    assert_eq!(r.set(&Value::U16(40_000)), Ok(()));
    assert_eq!(r, 40_000);

    let mut s: i16 = 0;
    assert_eq!(s.set(&Value::Usize(70_000)), Ok(()));
    assert_eq!(s, 70_000usize as i16);

    let mut t: u64 = 0;
    assert_eq!(t.set(&Value::Isize(-2)), Ok(()));
    assert_eq!(t, u64::MAX - 1);

    let mut u: i32 = 0;
    assert_eq!(u.set(&Value::I64(-5_000_000_000)), Ok(()));
    assert_eq!(u, -5_000_000_000i64 as i32);

    let mut v: u8 = 0;
    assert_eq!(v.set(&Value::I16(-129)), Ok(()));
    assert_eq!(v, 127);
}

#[test]
fn string_onto_integer_is_refused() {
    let mut a: u8 = 5;
    let r = a.set(&Value::Str(String::from("7")));
    assert_eq!(
        r,
        Err(PropertyError::TypeMismatch { expected: "u8", actual: "alloc::string::String" })
    );
    assert_eq!(a, 5);
}

#[test]
fn bool_and_list_onto_integer_are_refused() {
    let mut a: i64 = 5;
    assert!(matches!(a.set(&Value::Bool(true)), Err(PropertyError::TypeMismatch { .. })));
    assert!(matches!(a.set(&Value::List(vec![])), Err(PropertyError::TypeMismatch { .. })));
    assert_eq!(a, 5);
}

#[test]
fn integer_onto_bool_and_string_is_refused() {
    let mut b = false;
    assert!(matches!(b.set(&Value::U8(1)), Err(PropertyError::TypeMismatch { .. })));
    let mut s = String::from("x");
    assert!(matches!(s.set(&Value::I32(1)), Err(PropertyError::TypeMismatch { .. })));
    assert_eq!(s, "x");
}

#[test]
fn string_and_bool_take_their_own_type() {
    let mut s = String::from("old");
    assert_eq!(s.set(&Value::Str(String::from("new"))), Ok(()));
    assert_eq!(s, "new");
    let mut b = false;
    assert_eq!(b.apply(&Value::Bool(true)), Ok(()));
    assert!(b);
}

#[test]
fn cross_domain_coercion_is_refused() {
    assert_eq!(coercion(ValueKind::F32, ValueKind::I32), Coercion::Refused);
    assert_eq!(coercion(ValueKind::F64, ValueKind::U8), Coercion::Refused);
    assert_eq!(coercion(ValueKind::I64, ValueKind::F64), Coercion::Refused);
    assert_eq!(coercion(ValueKind::Usize, ValueKind::F32), Coercion::Refused);
    assert_eq!(coercion(ValueKind::F32, ValueKind::Str), Coercion::Refused);
    assert_eq!(coercion(ValueKind::U8, ValueKind::Str), Coercion::Refused);
}

#[test]
fn coercion_table_within_a_domain() {
    assert_eq!(coercion(ValueKind::F32, ValueKind::F64), Coercion::Cast);
    assert_eq!(coercion(ValueKind::F64, ValueKind::F32), Coercion::Cast);
    assert_eq!(coercion(ValueKind::F64, ValueKind::F64), Coercion::Direct);
    assert_eq!(coercion(ValueKind::U8, ValueKind::I64), Coercion::Cast);
    assert_eq!(coercion(ValueKind::Isize, ValueKind::Usize), Coercion::Cast);
    assert_eq!(coercion(ValueKind::I16, ValueKind::I16), Coercion::Direct);
    assert_eq!(coercion(ValueKind::Bool, ValueKind::Bool), Coercion::Direct);
    assert_eq!(coercion(ValueKind::Bool, ValueKind::U8), Coercion::Refused);
}

#[test]
fn every_integer_pair_is_accepted() {
    let sources = vec![
        Value::Usize(300),
        Value::U64(300),
        Value::U32(300),
        Value::U16(300),
        Value::U8(200),
        Value::Isize(-300),
        Value::I64(-300),
        Value::I32(-300),
        Value::I16(-300),
        Value::I8(-100),
    ];
    for s in &sources {
        let mut a: usize = 0;
        let mut b: u64 = 0;
        let mut c: u32 = 0;
        let mut d: u16 = 0;
        let mut e: u8 = 0;
        let mut f: isize = 0;
        let mut g: i64 = 0;
        let mut h: i32 = 0;
        let mut i: i16 = 0;
        let mut j: i8 = 0;
        assert_eq!(a.set(s), Ok(()));
        assert_eq!(b.set(s), Ok(()));
        assert_eq!(c.set(s), Ok(()));
        assert_eq!(d.set(s), Ok(()));
        assert_eq!(e.set(s), Ok(()));
        assert_eq!(f.set(s), Ok(()));
        assert_eq!(g.set(s), Ok(()));
        assert_eq!(h.set(s), Ok(()));
        assert_eq!(i.set(s), Ok(()));
        assert_eq!(j.set(s), Ok(()));
    }
}

#[test]
fn wide_sources_wrap_into_u8() {
    let mut e: u8 = 0;
    assert_eq!(e.set(&Value::U16(300)), Ok(()));
    assert_eq!(e, 44);
    assert_eq!(e.set(&Value::I16(-300)), Ok(()));
    assert_eq!(e, 212);
    assert_eq!(e.set(&Value::Usize(256)), Ok(()));
    assert_eq!(e, 0);
}

#[test]
fn non_list_onto_vector_is_refused() {
    let mut v: Vec<u8> = vec![1, 2];
    assert_eq!(v.set(&Value::U8(3)), Err(PropertyError::NotProperties { actual: "u8" }));
    assert_eq!(v, vec![1, 2]);
}

#[test]
fn element_mismatch_is_refused() {
    let mut v: Vec<u8> = vec![1, 2];
    let r = v.set(&Value::List(vec![Value::Str(String::from("a"))]));
    assert!(matches!(r, Err(PropertyError::TypeMismatch { .. })));

    let mut nested: Vec<Vec<u8>> = vec![vec![1]];
    let r = nested.set(&Value::List(vec![Value::U8(4)]));
    assert!(matches!(r, Err(PropertyError::NotProperties { .. })));
}

#[test]
fn nested_sequences_patch_positionally() {
    let mut v: Vec<Vec<i32>> = vec![vec![1, 2, 3], vec![4]];
    let src = Value::List(vec![Value::List(vec![Value::U8(9)]), Value::List(vec![Value::I64(-1), Value::I64(5)])]);
    assert_eq!(v.set(&src), Ok(()));
    assert_eq!(v, vec![vec![9, 2, 3], vec![-1]]);
}

#[test]
fn empty_sequences() {
    let mut v: Vec<u8> = vec![];
    assert_eq!(v.set(&Value::List(vec![Value::U8(1)])), Ok(()));
    assert!(v.is_empty());
    let mut w: Vec<u8> = vec![3];
    assert_eq!(w.set(&Value::List(vec![])), Ok(()));
    assert_eq!(w, vec![3]);
    assert_eq!(collect_props(&v).len(), 0);
}

#[test]
fn iterator_yields_each_element_then_stops() {
    let v: Vec<u32> = vec![5, 6, 7];
    let mut it = v.iter_props();
    assert_eq!(it.next(), Some(&5));
    assert_eq!(it.next(), Some(&6));
    assert_eq!(it.next(), Some(&7));
    assert_eq!(it.next(), None);
    assert_eq!(it.next(), None);
    assert_eq!(collect_props(&v), vec![&5, &6, &7]);
}

#[test]
fn shape_is_stable_across_mutation() {
    let mut v: Vec<i16> = vec![1, 2];
    assert_eq!(v.properties_type(), PropertiesType::Sequence);
    assert_eq!(v.set(&Value::List(vec![Value::I16(3)])), Ok(()));
    assert_eq!(v.properties_type(), PropertiesType::Sequence);
}

#[test]
fn lookups_on_a_sequence() {
    let mut v: Vec<u8> = vec![10, 20];
    assert_eq!(v.prop("len"), None);
    assert!(v.prop_mut("len").is_none());
    assert_eq!(v.prop_name(0), None);
    assert_eq!(v.prop_with_index(1), Some(&20));
    assert_eq!(v.prop_with_index(2), None);
    assert_eq!(v.prop_len(), 2);
    if let Some(x) = v.prop_with_index_mut(0) {
        *x = 11;
    }
    assert!(v.prop_with_index_mut(5).is_none());
    assert_eq!(v, vec![11, 20]);
}

#[test]
fn downcast_requires_the_exact_type() {
    assert_eq!(u8::downcast(&Value::U8(3)), Some(3));
    assert_eq!(u8::downcast(&Value::U16(3)), None);
    assert_eq!(i64::downcast(&Value::I64(-3)), Some(-3));
    assert_eq!(String::downcast(&Value::Str(String::from("a"))), Some(String::from("a")));
    assert_eq!(bool::downcast(&Value::U8(1)), None);
    let l = Value::List(vec![Value::U32(1), Value::U32(2)]);
    assert_eq!(<Vec<u32>>::downcast(&l), Some(vec![1, 2]));
    assert_eq!(<Vec<u64>>::downcast(&l), None);
}

#[test]
fn names_and_shapes() {
    assert_eq!(7u8.type_label(), "u8");
    assert_eq!((-7isize).type_label(), "isize");
    assert_eq!(vec![1u8].type_label(), "alloc::vec::Vec");
    assert_eq!(Value::I16(1).type_label(), "i16");
    assert!(vec![1u8].is_sequence());
    assert!(!1u8.is_sequence());
    assert!(Value::List(vec![]).is_sequence());
    assert!(!Value::Bool(true).is_sequence());
    assert_eq!(Value::Str(String::new()).kind(), ValueKind::Str);
}

#[test]
fn serializable_views() {
    let x: u16 = 4;
    assert!(matches!(x.serializable(), Serializable::Borrowed(r) if *r == 4));
    let v: Vec<u16> = vec![1, 2];
    match v.serializable() {
        Serializable::Owned(s) => assert_eq!(*s.property, vec![1, 2]),
        Serializable::Borrowed(_) => panic!("a sequence is serialized through an adapter"),
    }
}

#[test]
fn refusal_leaves_target_and_names_both_types() {
    let mut a: usize = 9;
    assert_eq!(
        a.set(&Value::Bool(true)),
        Err(PropertyError::TypeMismatch { expected: "usize", actual: "bool" })
    );
    assert_eq!(a, 9);
    let mut s = String::from("keep");
    assert_eq!(
        s.apply(&Value::List(vec![])),
        Err(PropertyError::TypeMismatch { expected: "alloc::string::String", actual: "alloc::vec::Vec" })
    );
    assert_eq!(s, "keep");
    let mut v: Vec<i32> = vec![1];
    assert_eq!(v.set(&Value::I32(5)), Err(PropertyError::NotProperties { actual: "i32" }));
    assert_eq!(v, vec![1]);
}

#[test]
fn type_labels_depend_on_the_type_alone() {
    assert_eq!(0u8.type_label(), 255u8.type_label());
    assert_eq!(0u8.type_label(), "u8");
    assert_eq!(1u64.type_label(), "u64");
    assert_eq!(true.type_label(), "bool");
    assert_eq!(String::new().type_label(), "alloc::string::String");
    assert_eq!(Value::List(vec![]).type_label(), "alloc::vec::Vec");
    assert_eq!(Value::Isize(0).type_label(), "isize");
}
