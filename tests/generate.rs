use justcxx_build::bridge::generate_rust;
use justcxx_build::model::{
    Arg, BindContext, BindInput, BindItem, CtorDef, FieldDef, FnDef, ImplDef, IterDef, MethodDef,
    MethodKind, StructDef,
};
use justcxx_build::preprocess::{preprocess, BindError};
use justcxx_build::shim::generate_cpp;
use justcxx_build::types::TypeKind;

fn prim(n: &str) -> TypeKind {
    TypeKind::Primitive(n.to_string())
}

fn field(name: &str, ty: TypeKind) -> FieldDef {
    FieldDef { name: name.to_string(), ty, is_protected: false, is_readonly: false }
}

fn readonly(name: &str, ty: TypeKind) -> FieldDef {
    FieldDef { name: name.to_string(), ty, is_protected: false, is_readonly: true }
}

fn strukt(name: &str, fields: Vec<FieldDef>) -> BindItem {
    BindItem::Struct(StructDef { name: name.to_string(), fields })
}

fn imp(target: &str, methods: Vec<MethodDef>) -> BindItem {
    BindItem::Impl(ImplDef { target: target.to_string(), methods })
}

fn method(name: &str, kind: MethodKind, args: Vec<Arg>, ret: Option<TypeKind>) -> MethodDef {
    MethodDef::Method(FnDef {
        rust_name: name.to_string(),
        cpp_name: name.to_string(),
        args,
        ret_ty: ret,
        kind,
        is_protected: false,
    })
}

fn arg(name: &str, ty: TypeKind) -> Arg {
    Arg { name: name.to_string(), ty }
}

fn ctor() -> MethodDef {
    MethodDef::Ctor(CtorDef {
        rust_name: "new".to_string(),
        args: vec![],
        cpp_name: "new".to_string(),
        is_user_defined: false,
    })
}

fn config() -> BindItem {
    strukt(
        "Config",
        vec![field("id", prim("i32")), field("value", prim("f32")), field("name", TypeKind::String)],
    )
}

fn build(items: Vec<BindItem>) -> BindContext {
    match preprocess(&BindInput { items }) {
        Ok(ctx) => ctx,
        Err(_) => panic!("the declaration was rejected"),
    }
}

fn outputs(ctx: &BindContext) -> (String, String) {
    (generate_cpp(ctx).expect("native header"), generate_rust(ctx).expect("host bindings"))
}

#[test]
fn test_static_method() {
    let ctx = build(vec![
        config(),
        strukt("Methods", vec![readonly("id", prim("i32"))]),
        imp(
            "Methods",
            vec![ctor(), method("add", MethodKind::Static, vec![arg("v", prim("i32")), arg("w", prim("i32"))], Some(prim("i32")))],
        ),
    ]);
    let (cpp, rust) = outputs(&ctx);
    assert!(cpp.contains("DEFINE_STATIC_METHOD(Methods, add, add)\n"));
    assert!(rust.contains("#[rust_name = \"Methods_method_add\"]\nfn Methods_method_add(v: i32, w: i32) -> i32;\n"));
    assert!(rust.contains("impl Methods {\n"));
    assert!(rust.contains("pub fn add(v: i32, w: i32) -> i32 { unsafe { ffi::Methods_method_add(v, w) } }\n"));
}

#[test]
fn plain_class_scenario() {
    let ctx = build(vec![config()]);
    assert_eq!(ctx.vec_defs.len(), 0);
    assert_eq!(ctx.map_defs.len(), 0);
    let (cpp, rust) = outputs(&ctx);
    assert_eq!(cpp.matches("DEFINE_VAL(").count(), 3);
    assert_eq!(cpp.matches("DEFINE_VAL_SET(").count(), 3);
    assert_eq!(cpp.matches("DEFINE_CTOR(Config, new)").count(), 1);
    assert_eq!(rust.matches("fn Config_get_").count(), 3);
    assert_eq!(rust.matches("fn Config_set_").count(), 3);
    assert_eq!(rust.matches("fn make_Config_new()").count(), 1);
    assert!(rust.contains("pub fn id(&self) -> i32 { unsafe { let ptr = S::as_ptr(&self.inner); ffi::Config_get_id(&*ptr) } }\n"));
    assert!(rust.contains("pub fn set_name(&mut self, value: &str)"));
    assert!(rust.contains("pub fn new() -> CppObject<'static, Config, justcxx::Mut, justcxx::Owned>"));
}

#[test]
fn default_constructor_is_injected_once() {
    let ctx = build(vec![config(), imp("Config", vec![ctor()]), strukt("Bare", vec![])]);
    assert_eq!(ctx.models[0].methods.len(), 1);
    assert_eq!(ctx.models[1].methods.len(), 1);
    match &ctx.models[1].methods[0] {
        MethodDef::Ctor(c) => {
            assert_eq!(c.rust_name, "new");
            assert!(!c.is_user_defined);
        },
        _ => panic!("expected a constructor"),
    }
}

#[test]
fn same_vector_type_is_registered_once() {
    let ctx = build(vec![
        config(),
        strukt(
            "Holder",
            vec![
                field("a", TypeKind::Vector { inner: Box::new(TypeKind::Object("Config".to_string())), is_ptr: false }),
                field("b", TypeKind::Vector { inner: Box::new(prim("Config")), is_ptr: false }),
            ],
        ),
        imp(
            "Holder",
            vec![method(
                "take",
                MethodKind::Mutable,
                vec![arg(
                    "v",
                    TypeKind::new_mut_ref(TypeKind::Vector { inner: Box::new(prim("Config")), is_ptr: false }),
                )],
                None,
            )],
        ),
    ]);
    assert_eq!(ctx.vec_defs.len(), 1);
    assert_eq!(ctx.vec_defs[0].get_flat_name(), "Vec_Config");
    let (cpp, rust) = outputs(&ctx);
    assert_eq!(cpp.matches("using Vec_Config = std::vector<Config>;").count(), 1);
    assert_eq!(cpp.matches("DEFINE_VEC_OPS(Vec_Config, Config)").count(), 1);
    assert_eq!(rust.matches("type Vec_Config;").count(), 1);
    assert!(rust.contains("fn Vec_Config_len(obj: &Vec_Config) -> usize;"));
    assert!(rust.contains("impl justcxx::CppClass for CppVector<Config> { type FfiType = ffi::Vec_Config; }"));
}

#[test]
fn value_field_has_getter_and_setter_everywhere() {
    let ctx = build(vec![config()]);
    let (cpp, rust) = outputs(&ctx);
    assert!(cpp.contains("DEFINE_VAL(Config, id)\nDEFINE_VAL_SET(Config, id)\n"));
    assert!(rust.contains("#[rust_name = \"Config_get_id\"]\nfn Config_get_id(obj: &Config) -> i32;\n"));
    assert!(rust.contains("#[rust_name = \"Config_set_id\"]\nfn Config_set_id(obj: Pin<&mut Config>, val: i32);\n"));
    assert!(rust.contains("pub fn set_id(&mut self, value: i32) { unsafe { let ptr = S::as_ptr(&self.inner); let pin_self = std::pin::Pin::new_unchecked(&mut *ptr); ffi::Config_set_id(pin_self, value) } }"));
}

#[test]
fn readonly_fields_have_no_setter() {
    let ctx = build(vec![
        config(),
        strukt("Methods", vec![readonly("id", prim("i32")), readonly("config", prim("Config"))]),
    ]);
    let (cpp, rust) = outputs(&ctx);
    assert!(cpp.contains("DEFINE_VAL(Methods, id)\n"));
    assert!(cpp.contains("DEFINE_OBJ_CONST(Methods, config)\n"));
    assert!(!cpp.contains("_SET(Methods"));
    assert!(!rust.contains("Methods_set_"));
    assert!(rust.contains("impl<'a, S: justcxx::Storage<Methods>> CppObject<'a, Methods, justcxx::Mut, S> {\n}\n"));
    assert!(rust.contains("pub fn config(&self) -> CppObject<'_, Config, justcxx::Const, justcxx::Ref>"));
}

#[test]
fn exposer_only_for_protected_members() {
    let mut hidden = field("hidden", prim("i32"));
    hidden.is_protected = true;
    let ctx = build(vec![
        strukt("Secret", vec![hidden, field("open", prim("i32"))]),
        imp(
            "Secret",
            vec![MethodDef::Method(FnDef {
                rust_name: "peek".to_string(),
                cpp_name: "peek_impl".to_string(),
                args: vec![],
                ret_ty: Some(prim("i32")),
                kind: MethodKind::Const,
                is_protected: true,
            })],
        ),
        config(),
    ]);
    assert!(ctx.models[0].needs_exposer);
    assert!(!ctx.models[1].needs_exposer);
    let (cpp, rust) = outputs(&ctx);
    assert!(cpp.contains("class Secret_Exposer : public Secret {\npublic:\nusing Secret::Secret;\nusing Secret::hidden;\nusing Secret::peek_impl;\n};\n"));
    assert!(cpp.contains("DEFINE_VAL(Secret_Exposer, hidden)"));
    assert!(cpp.contains("DEFINE_METHOD_CONST(Secret_Exposer, peek, peek_impl)"));
    assert!(!cpp.contains("Config_Exposer"));
    assert!(rust.contains("#[cxx_name = \"Secret_Exposer\"]\ntype Secret;\n"));
    assert!(rust.contains("fn Secret_Exposer_get_hidden(obj: &Secret) -> i32;"));
}

#[test]
fn exposer_with_iterator_is_rejected() {
    let mut hidden = field("hidden", prim("i32"));
    hidden.is_protected = true;
    let r = preprocess(&BindInput { items: vec![
        config(),
        strukt("Secret", vec![hidden]),
        imp(
            "Secret",
            vec![MethodDef::Iter(IterDef {
                rust_name: "drain".to_string(),
                yield_ty: prim("Config"),
                cpp_name: "drain".to_string(),
                is_iter_mut: true,
                is_owned: true,
                is_item_mut: false,
            })],
        ),
    ] });
    match r {
        Err(BindError::ExposerWithIterator(n)) => assert_eq!(n, "Secret"),
        _ => panic!("expected an exposer with an iterator to be rejected"),
    }
}

#[test]
fn exposer_with_custom_factory_is_rejected() {
    let mut hidden = field("hidden", prim("i32"));
    hidden.is_protected = true;
    let r = preprocess(&BindInput { items: vec![
        strukt("Secret", vec![hidden]),
        imp(
            "Secret",
            vec![MethodDef::Ctor(CtorDef {
                rust_name: "create".to_string(),
                args: vec![],
                cpp_name: "make_secret".to_string(),
                is_user_defined: true,
            })],
        ),
    ] });
    match r {
        Err(BindError::ExposerWithCustomFactory(n)) => assert_eq!(n, "Secret"),
        _ => panic!("expected an exposer with a custom factory to be rejected"),
    }
}

#[test]
fn iterator_method_scenario() {
    let ctx = build(vec![
        config(),
        strukt("ConfigContainer", vec![field("ids", TypeKind::Vector { inner: Box::new(prim("i32")), is_ptr: false })]),
        imp(
            "ConfigContainer",
            vec![MethodDef::Iter(IterDef {
                rust_name: "drain".to_string(),
                yield_ty: prim("Config"),
                cpp_name: "drain".to_string(),
                is_iter_mut: true,
                is_owned: true,
                is_item_mut: false,
            })],
        ),
    ]);
    let (cpp, rust) = outputs(&ctx);
    assert!(cpp.contains("DEFINE_ITER(ConfigContainer, drain, Config)"));
    assert!(rust.contains("type ConfigContainer_drain_IterCtx;"));
    assert!(rust.contains("fn ConfigContainer_drain_iter_next(ctx: Pin<&mut ConfigContainer_drain_IterCtx>) -> UniquePtr<Config>;"));
    assert!(rust.contains("pub struct ConfigContainer_drain_Iter<'a, M: justcxx::Mode>"));
    assert!(rust.contains("pub fn drain(&mut self) -> impl Iterator<Item = CppObject<'static, Config, justcxx::Mut, justcxx::Owned>>"));
    assert!(rust.contains("pub fn as_slice(&self) -> &[i32]"));
    assert!(rust.contains("pub fn as_mut_slice(&mut self) -> &mut [i32]"));
    assert!(rust.contains("pub fn drain(&mut self) -> impl Iterator<Item = CppObject<'static, Config, justcxx::Mut, justcxx::Owned>> + '_ {"));
    assert!(rust.contains("pub fn as_ref(&self) -> CppObject<'_, T, justcxx::Const, justcxx::Ref> {"));
    assert!(rust.contains("pub fn as_mut(&self) -> CppObject<'_, T, justcxx::Mut, justcxx::Ref> {"));
    assert!(rust.contains("\n    fn as_ptr(&self) -> *mut T::FfiType {"));
    assert!(!rust.contains("pub fn as_ptr"));
}

#[test]
fn optional_scenarios() {
    let ctx = build(vec![
        config(),
        strukt("Wallet", vec![readonly("config", TypeKind::Option(Box::new(prim("Config"))))]),
        strukt("Chance", vec![field("probability", TypeKind::Option(Box::new(prim("i32"))))]),
        imp(
            "Chance",
            vec![method("optional_id", MethodKind::Const, vec![arg("flag", prim("bool"))], Some(TypeKind::Option(Box::new(prim("i32")))))],
        ),
    ]);
    let (cpp, rust) = outputs(&ctx);
    assert!(cpp.contains("DEFINE_OPT_OBJ_CONST(Wallet, config)\n"));
    assert!(cpp.contains("DEFINE_OPT_VAL(Chance, probability)\n"));
    assert!(!rust.contains("Wallet_set_config"));
    assert!(!rust.contains("Chance_set_probability"));
    assert!(rust.contains("fn Wallet_get_config(obj: &Wallet) -> Result<&Config>;"));
    assert!(rust.contains("pub fn config(&self) -> Option<CppObject<'_, Config, justcxx::Const, justcxx::Ref>>"));
    assert!(rust.contains("fn Chance_method_optional_id(obj: &Chance, flag: bool) -> Result<i32>;"));
    assert!(rust.contains("pub fn optional_id(&self, flag: bool) -> Option<i32> { unsafe { let ptr = S::as_ptr(&self.inner); match ffi::Chance_method_optional_id(&*ptr, flag) { Ok(val) => Some({ val }), Err(_) => None } } }"));
}

#[test]
fn option_argument_is_rejected() {
    let r = preprocess(&BindInput { items: vec![
        config(),
        imp("Config", vec![method("take", MethodKind::Mutable, vec![arg("o", TypeKind::Option(Box::new(prim("i32"))))], None)]),
    ] });
    match r {
        Err(BindError::OptionArgument(n)) => assert_eq!(n, "take"),
        _ => panic!("expected an Option argument to be rejected"),
    }
}

#[test]
fn unsupported_map_key_is_rejected() {
    let r = preprocess(&BindInput { items: vec![
        config(),
        strukt(
            "Index",
            vec![field("by_config", TypeKind::Mapping { key: Box::new(prim("Config")), value: Box::new(prim("i32")), is_val_ptr: false })],
        ),
    ] });
    match r {
        Err(BindError::UnsupportedMapKey(n)) => assert_eq!(n, "Map_Config_i32"),
        _ => panic!("expected an object key to be rejected"),
    }
}

#[test]
fn unnamed_container_is_rejected() {
    let r = preprocess(&BindInput { items: vec![strukt(
        "Odd",
        vec![field("s", TypeKind::Vector { inner: Box::new(TypeKind::Slice(Box::new(prim("u8")))), is_ptr: false })],
    )] });
    assert!(matches!(r, Err(BindError::UnnamedContainer)));
}

#[test]
fn map_scenario() {
    let ctx = build(vec![
        config(),
        strukt(
            "MapExample",
            vec![
                field("int_str_map", TypeKind::Mapping { key: Box::new(prim("i32")), value: Box::new(TypeKind::String), is_val_ptr: false }),
                field("str_config_map", TypeKind::Mapping { key: Box::new(TypeKind::String), value: Box::new(prim("Config")), is_val_ptr: false }),
            ],
        ),
    ]);
    assert_eq!(ctx.map_defs.len(), 2);
    let (cpp, rust) = outputs(&ctx);
    assert!(cpp.contains("using Map_i32_String = std::unordered_map<i32,std::string>;\nDEFINE_MAP_OPS(Map_i32_String)\nDEFINE_MAP_ITER(Map_i32_String)\n"));
    assert!(cpp.contains("using Map_String_Config = std::unordered_map<std::string,Config>;"));
    assert!(rust.contains("fn Map_String_Config_get<'a>(obj: Pin<&'a mut Map_String_Config>, key: &str) -> Result<Pin<&'a mut Config>>;"));
    assert!(rust.contains("fn Map_i32_String_get(obj: Pin<&mut Map_i32_String>, key: i32) -> Result<String>;"));
    assert!(rust.contains("pub fn get(&self, key: &str) -> Option<CppObject<'a, Config, M, justcxx::Ref>>"));
    assert!(rust.contains("pub fn str_config_map(&self) -> CppObject<'_, CppMap<String, Config>, M, justcxx::Ref>"));
}

#[test]
fn unknown_impl_target_is_rejected() {
    let r = preprocess(&BindInput { items: vec![imp("Ghost", vec![ctor()]), config()] });
    match r {
        Err(BindError::UnknownImplTarget(n)) => assert_eq!(n, "Ghost"),
        _ => panic!("expected an unknown impl target"),
    }
}

#[test]
fn duplicate_struct_is_rejected() {
    let r = preprocess(&BindInput { items: vec![config(), config()] });
    match r {
        Err(BindError::DuplicateStruct(n)) => assert_eq!(n, "Config"),
        _ => panic!("expected a duplicate struct"),
    }
}

#[test]
fn includes_are_emitted_in_order() {
    let ctx = build(vec![BindItem::Include("test.hh".to_string()), BindItem::Include("<vector>".to_string()), config()]);
    let (cpp, rust) = outputs(&ctx);
    assert!(cpp.starts_with("#include \"test.hh\"\n#include <vector>\n\n"));
    assert!(rust.contains("include!(\"test.hh\");\ninclude!(\"<vector>\");\ninclude!(\"justcxx.hh\");\n"));
}

#[test]
fn user_factory_is_declared_but_not_shimmed() {
    let ctx = build(vec![
        config(),
        imp(
            "Config",
            vec![MethodDef::Ctor(CtorDef {
                rust_name: "create".to_string(),
                args: vec![arg("id", prim("i32"))],
                cpp_name: "make_config".to_string(),
                is_user_defined: true,
            })],
        ),
    ]);
    let (cpp, rust) = outputs(&ctx);
    assert!(!cpp.contains("DEFINE_CTOR"));
    assert!(rust.contains("#[rust_name = \"make_Config_create\"]\nfn make_config(id: i32) -> UniquePtr<Config>;\n"));
    assert!(rust.contains("ffi::make_Config_create(id)"));
}

#[test]
fn registry_is_sorted_by_flat_name() {
    let ctx = build(vec![
        config(),
        strukt(
            "Lists",
            vec![
                field("ids", TypeKind::Vector { inner: Box::new(prim("i32")), is_ptr: false }),
                field("configs", TypeKind::Vector { inner: Box::new(prim("Config")), is_ptr: false }),
                field("names", TypeKind::Vector { inner: Box::new(TypeKind::String), is_ptr: false }),
                field("owned", TypeKind::Vector { inner: Box::new(TypeKind::new_unique_ptr(prim("Config"))), is_ptr: false }),
            ],
        ),
    ]);
    let names: Vec<String> = ctx.vec_defs.iter().map(|t| t.get_flat_name()).collect();
    assert_eq!(names, vec!["Vec_Config", "Vec_Ptr_Config", "Vec_String", "Vec_i32"]);
    let (cpp, _) = outputs(&ctx);
    let a = cpp.find("using Vec_Config =").unwrap();
    let b = cpp.find("using Vec_Ptr_Config = std::vector<std::unique_ptr<Config>>;").unwrap();
    let c = cpp.find("using Vec_String = std::vector<std::string>;").unwrap();
    let d = cpp.find("using Vec_i32 = std::vector<i32>;").unwrap();
    assert!(a < b && b < c && c < d);
}

#[test]
fn container_name_collision_is_rejected() {
    let r = preprocess(&BindInput { items: vec![strukt(
        "Clash",
        vec![
            field("plain", TypeKind::Vector { inner: Box::new(prim("i32")), is_ptr: false }),
            field("optional", TypeKind::Vector { inner: Box::new(TypeKind::Option(Box::new(prim("i32")))), is_ptr: false }),
        ],
    )] });
    match r {
        Err(BindError::ContainerNameCollision(n)) => assert_eq!(n, "Vec_i32"),
        _ => panic!("expected colliding container names to be rejected"),
    }
}

#[test]
fn round_trip_pairs_for_every_primitive_kind() {
    let kinds = ["i8", "i16", "i32", "i64", "u8", "u16", "u32", "u64", "f32", "f64", "bool"];
    let mut fields: Vec<FieldDef> = kinds.iter().map(|k| field(&format!("f_{}", k), prim(k))).collect();
    fields.push(field("f_string", TypeKind::String));
    let ctx = build(vec![strukt("Values", fields)]);
    let (cpp, rust) = outputs(&ctx);
    for k in kinds.iter() {
        assert!(cpp.contains(&format!("DEFINE_VAL(Values, f_{k})\nDEFINE_VAL_SET(Values, f_{k})\n")));
        assert!(rust.contains(&format!("fn Values_get_f_{k}(obj: &Values) -> {k};")));
        assert!(rust.contains(&format!("fn Values_set_f_{k}(obj: Pin<&mut Values>, val: {k});")));
        assert!(rust.contains(&format!("pub fn f_{k}(&self) -> {k} {{")));
        assert!(rust.contains(&format!("pub fn set_f_{k}(&mut self, value: {k}) {{")));
    }
    assert!(rust.contains("fn Values_get_f_string(obj: &Values) -> String;"));
    assert!(rust.contains("fn Values_set_f_string(obj: Pin<&mut Values>, val: &str);"));
    assert!(rust.contains("pub fn f_string(&self) -> String {"));
    assert!(rust.contains("pub fn set_f_string(&mut self, value: &str) {"));
}

#[test]
fn borrowed_iterator_hands_out_borrowed_handles() {
    let ctx = build(vec![
        config(),
        strukt("Shelf", vec![]),
        imp(
            "Shelf",
            vec![
                MethodDef::Iter(IterDef {
                    rust_name: "items".to_string(),
                    yield_ty: prim("Config"),
                    cpp_name: "items".to_string(),
                    is_iter_mut: false,
                    is_owned: false,
                    is_item_mut: false,
                }),
                MethodDef::Iter(IterDef {
                    rust_name: "items_mut".to_string(),
                    yield_ty: prim("Config"),
                    cpp_name: "items_mut".to_string(),
                    is_iter_mut: true,
                    is_owned: false,
                    is_item_mut: true,
                }),
            ],
        ),
    ]);
    let (cpp, rust) = outputs(&ctx);
    assert!(cpp.contains("DEFINE_ITER_REF(Shelf, items, Config)\n"));
    assert!(cpp.contains("DEFINE_ITER_REF(Shelf, items_mut, Config)\n"));
    assert!(rust.contains("fn Shelf_items_iter_next(ctx: Pin<&mut Shelf_items_IterCtx>) -> *mut Config;"));
    assert!(rust.contains("Iterator for Shelf_items_Iter<'a, M> { type Item = CppObject<'a, Config, justcxx::Const, justcxx::Ref>;"));
    assert!(rust.contains("Iterator for Shelf_items_mut_Iter<'a, M> { type Item = CppObject<'a, Config, justcxx::Mut, justcxx::Ref>;"));
    assert!(rust.contains("pub fn items(&self) -> impl Iterator<Item = CppObject<'_, Config, justcxx::Const, justcxx::Ref>> + '_ {"));
    assert!(!rust.contains("Shelf_items_Iter<'a, M> { type Item = CppObject<'static"));
}

#[test]
fn unsupported_element_is_rejected() {
    let r = preprocess(&BindInput { items: vec![strukt(
        "Nested",
        vec![field(
            "grid",
            TypeKind::Vector { inner: Box::new(TypeKind::Vector { inner: Box::new(prim("i32")), is_ptr: false }), is_ptr: false },
        )],
    )] });
    match r {
        Err(BindError::UnsupportedElement(n)) => assert_eq!(n, "Vec_Vec_i32"),
        _ => panic!("expected a vector of vectors to be rejected"),
    }
}
