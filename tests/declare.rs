use justcxx_build::declare::{classify_method, ItemMode, RawMethod, Receiver};
use justcxx_build::model::{Arg, MethodDef, MethodKind};
use justcxx_build::preprocess::BindError;
use justcxx_build::types::TypeKind;

fn raw(name: &str, receiver: Receiver) -> RawMethod {
    RawMethod {
        name: name.to_string(),
        receiver,
        args: vec![],
        returns_self: false,
        ret_ty: None,
        native_name: None,
        iter: None,
        is_protected: false,
    }
}

#[test]
fn plain_methods_by_receiver() {
    match classify_method(raw("get_id", Receiver::Shared)) {
        Ok(MethodDef::Method(f)) => {
            assert!(f.kind == MethodKind::Const);
            assert_eq!(f.cpp_name, "get_id");
        },
        _ => panic!("expected a const method"),
    }
    let mut m = raw("call", Receiver::Exclusive);
    m.native_name = Some("operator()".to_string());
    match classify_method(m) {
        Ok(MethodDef::Method(f)) => {
            assert!(f.kind == MethodKind::Mutable);
            assert_eq!(f.cpp_name, "operator()");
        },
        _ => panic!("expected a mutable method"),
    }
    let mut s = raw("add", Receiver::Absent);
    s.args = vec![Arg { name: "v".to_string(), ty: TypeKind::Primitive("i32".to_string()) }];
    match classify_method(s) {
        Ok(MethodDef::Method(f)) => assert!(f.kind == MethodKind::Static && f.args.len() == 1),
        _ => panic!("expected a static method"),
    }
}

#[test]
fn constructors_return_self() {
    let mut c = raw("new", Receiver::Absent);
    c.returns_self = true;
    match classify_method(c) {
        Ok(MethodDef::Ctor(c)) => assert!(!c.is_user_defined),
        _ => panic!("expected a constructor"),
    }
    let mut u = raw("create", Receiver::Absent);
    u.returns_self = true;
    u.native_name = Some("make_config".to_string());
    match classify_method(u) {
        Ok(MethodDef::Ctor(c)) => {
            assert!(c.is_user_defined);
            assert_eq!(c.cpp_name, "make_config");
        },
        _ => panic!("expected a custom factory"),
    }
    let mut bad = raw("new", Receiver::Shared);
    bad.returns_self = true;
    assert!(matches!(classify_method(bad), Err(BindError::NonStaticConstructor(_))));
}

#[test]
fn iterator_rules() {
    let mut it = raw("drain", Receiver::Exclusive);
    it.iter = Some(Some(("Config".to_string(), ItemMode::Owned)));
    match classify_method(it) {
        Ok(MethodDef::Iter(i)) => assert!(i.is_iter_mut && i.is_owned),
        _ => panic!("expected an iterator"),
    }
    let mut missing = raw("drain", Receiver::Exclusive);
    missing.iter = Some(None);
    assert!(matches!(classify_method(missing), Err(BindError::MissingIterItem(_))));
    let mut with_args = raw("drain", Receiver::Exclusive);
    with_args.iter = Some(Some(("Config".to_string(), ItemMode::Owned)));
    with_args.args = vec![Arg { name: "n".to_string(), ty: TypeKind::Primitive("i32".to_string()) }];
    assert!(matches!(classify_method(with_args), Err(BindError::IteratorWithArguments(_))));
    let mut stat = raw("drain", Receiver::Absent);
    stat.iter = Some(Some(("Config".to_string(), ItemMode::Shared)));
    assert!(matches!(classify_method(stat), Err(BindError::StaticIterator(_))));
    let mut shared = raw("drain", Receiver::Shared);
    shared.iter = Some(Some(("Config".to_string(), ItemMode::Exclusive)));
    assert!(matches!(classify_method(shared), Err(BindError::MutableItemOnSharedReceiver(_))));
}

#[test]
fn by_value_receiver_is_rejected() {
    assert!(matches!(classify_method(raw("consume", Receiver::ByValue)), Err(BindError::PassByValueSelf(_))));
}
