use justcxx_build::dsl::extract_dsl;
use justcxx_build::types::TypeKind;

fn prim(n: &str) -> TypeKind {
    TypeKind::Primitive(n.to_string())
}

fn obj(n: &str) -> TypeKind {
    TypeKind::Object(n.to_string())
}

#[test]
fn flat_names_compose() {
    assert_eq!(prim("i32").get_flat_name(), "i32");
    assert_eq!(TypeKind::String.get_flat_name(), "String");
    assert_eq!(TypeKind::Vector { inner: Box::new(obj("Config")), is_ptr: true }.get_flat_name(), "Vec_Ptr_Config");
    assert_eq!(
        TypeKind::Mapping { key: Box::new(TypeKind::String), value: Box::new(obj("Config")), is_val_ptr: true }.get_flat_name(),
        "Map_Ptr_String_Config"
    );
    let nested = TypeKind::Vector { inner: Box::new(TypeKind::Vector { inner: Box::new(prim("i32")), is_ptr: false }), is_ptr: false };
    assert_eq!(nested.get_flat_name(), "Vec_Vec_i32");
    assert_eq!(TypeKind::new_const_ref(obj("Config")).get_flat_name(), "Config");
}

#[test]
fn ffi_types_by_position() {
    assert_eq!(TypeKind::String.to_ffi_type(true).unwrap(), "String");
    assert_eq!(TypeKind::String.to_ffi_type(false).unwrap(), "&str");
    assert_eq!(obj("Config").to_ffi_type(true).unwrap(), "UniquePtr<Config>");
    assert_eq!(TypeKind::new_mut_ref(obj("Config")).to_ffi_type(false).unwrap(), "Pin<&mut Config>");
    assert_eq!(TypeKind::new_const_ref(obj("Config")).to_ffi_type(false).unwrap(), "&Config");
    assert_eq!(TypeKind::new_const_ref(TypeKind::String).to_ffi_type(false).unwrap(), "&str");
    assert_eq!(TypeKind::new_mut_ref(TypeKind::Slice(Box::new(prim("u8")))).to_ffi_type(false).unwrap(), "&mut [u8]");
    assert_eq!(TypeKind::Option(Box::new(prim("i32"))).to_ffi_type(true).unwrap(), "Result<i32>");
    assert_eq!(TypeKind::Option(Box::new(obj("Config"))).to_ffi_type(true).unwrap(), "UniquePtr<Config>");
    assert_eq!(
        TypeKind::Vector { inner: Box::new(prim("i32")), is_ptr: false }.to_ffi_type(true).unwrap(),
        "UniquePtr<Vec_i32>"
    );
}

#[test]
fn wrapper_types_and_conversions() {
    let v = TypeKind::Vector { inner: Box::new(obj("Config")), is_ptr: false };
    assert_eq!(v.to_rust_tag().unwrap(), "CppVector<Config>");
    assert_eq!(obj("Config").to_rust_wrapper_arg_type().unwrap(), "justcxx::CppOwned<Config>");
    assert_eq!(TypeKind::new_const_ref(obj("Config")).to_rust_wrapper_arg_type().unwrap(), "justcxx::CppRef<'_, Config>");
    assert_eq!(TypeKind::new_mut_ref(obj("Config")).to_rust_wrapper_arg_type().unwrap(), "&mut justcxx::CppMut<'_, Config>");
    assert_eq!(TypeKind::new_const_ref(obj("Config")).to_rust_wrapper_ret_type(Some("'a")).unwrap(), "justcxx::CppRef<'a, Config>");
    assert_eq!(TypeKind::Option(Box::new(prim("i32"))).to_rust_wrapper_ret_type(None).unwrap(), "Option<i32>");
    assert!(TypeKind::Option(Box::new(prim("i32"))).to_rust_wrapper_arg_type().is_none());
    assert_eq!(obj("Config").gen_arg_conversion("c"), "c.inner");
    assert_eq!(TypeKind::new_const_ref(obj("Config")).gen_arg_conversion("c"), "&*c.as_ptr()");
    assert_eq!(prim("i32").gen_arg_conversion("v"), "v");
    assert_eq!(prim("i32").gen_ret_conversion("f()"), "f()");
    assert_eq!(
        TypeKind::Option(Box::new(obj("Config"))).gen_ret_conversion("f()"),
        "let val = f(); if val.is_null() { None } else { Some({ let unique_ptr = val; CppObject { inner: unique_ptr, _marker: std::marker::PhantomData } }) }"
    );
    assert!(v.is_object_value());
    assert!(!TypeKind::String.is_object_value());
}

#[test]
fn extracts_first_bind_block() {
    let src = "use justcxx::bind;\nbind! {\n    struct A { x: i32, }\n    impl A { fn new() -> Self; }\n}\nfn main() {}\n";
    assert_eq!(extract_dsl(src).unwrap(), "\n    struct A { x: i32, }\n    impl A { fn new() -> Self; }\n");
    assert!(extract_dsl("fn main() {}").is_none());
    assert!(extract_dsl("bind! { struct A {").is_none());
    assert!(extract_dsl("bind!").is_none());
    assert_eq!(extract_dsl("bind!{}").unwrap(), "");
    assert_eq!(extract_dsl("// é\nbind! { ü }").unwrap(), " ü ");
}
