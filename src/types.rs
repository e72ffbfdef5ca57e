use vstd::prelude::*;
use crate::text::{cat2, cat3, opt_view, wrap, wrap_spec, lemma_text_assoc};

verus! {

broadcast use lemma_text_assoc;

/// The closed set of type shapes that cross the language boundary.
pub enum TypeKind {
    Primitive(String),
    String,
    Object(String),
    Vector { inner: Box<TypeKind>, is_ptr: bool },
    Mapping { key: Box<TypeKind>, value: Box<TypeKind>, is_val_ptr: bool },
    Option(Box<TypeKind>),
    Result(Box<TypeKind>),
    Reference { inner: Box<TypeKind>, is_mut: bool },
    UniquePtr(Box<TypeKind>),
    Slice(Box<TypeKind>),
}

/// The mathematical shape of a `TypeKind`: names are character sequences.
pub enum Ty {
    Primitive(Seq<char>),
    Str,
    Object(Seq<char>),
    Vector(Box<Ty>, bool),
    Mapping(Box<Ty>, Box<Ty>, bool),
    Optional(Box<Ty>),
    Fallible(Box<Ty>),
    Reference(Box<Ty>, bool),
    UniquePtr(Box<Ty>),
    Slice(Box<Ty>),
}

pub open spec fn ty_of(t: &TypeKind) -> Ty
    decreases t,
{
    match t {
        TypeKind::Primitive(s) => Ty::Primitive(s@),
        TypeKind::String => Ty::Str,
        TypeKind::Object(s) => Ty::Object(s@),
        TypeKind::Vector { inner, is_ptr } => Ty::Vector(Box::new(ty_of(inner)), *is_ptr),
        TypeKind::Mapping { key, value, is_val_ptr } => Ty::Mapping(
            Box::new(ty_of(key)),
            Box::new(ty_of(value)),
            *is_val_ptr,
        ),
        TypeKind::Option(i) => Ty::Optional(Box::new(ty_of(i))),
        TypeKind::Result(i) => Ty::Fallible(Box::new(ty_of(i))),
        TypeKind::Reference { inner, is_mut } => Ty::Reference(Box::new(ty_of(inner)), *is_mut),
        TypeKind::UniquePtr(i) => Ty::UniquePtr(Box::new(ty_of(i))),
        TypeKind::Slice(i) => Ty::Slice(Box::new(ty_of(i))),
    }
}

impl View for TypeKind {
    type V = Ty;

    open spec fn view(&self) -> Ty {
        ty_of(self)
    }
}

/// Objects, vectors and maps live on the native heap and cross the boundary by pointer.
pub open spec fn is_object_shape(t: Ty) -> bool {
    t is Object || t is Vector || t is Mapping
}

/// Whether the flat name of `t` is defined: no slice on the way down.
pub open spec fn nameable(t: Ty) -> bool
    decreases t,
{
    match t {
        Ty::Primitive(_) | Ty::Str | Ty::Object(_) => true,
        Ty::Vector(i, _) => nameable(*i),
        Ty::Mapping(k, v, _) => nameable(*k) && nameable(*v),
        Ty::Optional(i) | Ty::Fallible(i) | Ty::Reference(i, _) | Ty::UniquePtr(i) => nameable(*i),
        Ty::Slice(_) => false,
    }
}

pub open spec fn vec_prefix(is_ptr: bool) -> Seq<char> {
    if is_ptr { "Vec_Ptr"@ } else { "Vec"@ }
}

pub open spec fn map_prefix(is_ptr: bool) -> Seq<char> {
    if is_ptr { "Map_Ptr"@ } else { "Map"@ }
}

/// The canonical name that the three outputs give a container instantiation.
pub open spec fn flat_name(t: Ty) -> Seq<char>
    decreases t,
{
    match t {
        Ty::Primitive(s) | Ty::Object(s) => s,
        Ty::Str => "String"@,
        Ty::Vector(i, p) => vec_prefix(p) + "_"@ + flat_name(*i),
        Ty::Mapping(k, v, p) => map_prefix(p) + "_"@ + flat_name(*k) + "_"@ + flat_name(*v),
        Ty::Optional(i) | Ty::Fallible(i) | Ty::Reference(i, _) | Ty::UniquePtr(i) => flat_name(*i),
        Ty::Slice(_) => Seq::empty(),
    }
}

/// The bare name of a type in a foreign declaration, where it has one.
pub open spec fn ffi_name_only(t: Ty) -> Option<Seq<char>> {
    match t {
        Ty::Primitive(s) | Ty::Object(s) => Some(s),
        Ty::Str => Some("CxxString"@),
        Ty::Vector(..) | Ty::Mapping(..) => if nameable(t) { Some(flat_name(t)) } else { None },
        _ => None,
    }
}

/// The low-level declaration type of `t` as an argument (`is_return` false) or a result.
pub open spec fn ffi_type(t: Ty, is_return: bool) -> Option<Seq<char>>
    decreases t,
{
    match t {
        Ty::Primitive(s) => Some(s),
        Ty::Str => if is_return { Some("String"@) } else { Some("&str"@) },
        Ty::Object(s) => Some("UniquePtr<"@ + s + ">"@),
        Ty::Vector(..) | Ty::Mapping(..) => wrap_spec(ffi_name_only(t), "UniquePtr<"@, ">"@),
        Ty::Reference(inner, m) => match *inner {
            Ty::Slice(e) => if m {
                wrap_spec(ffi_name_only(*e), "&mut ["@, "]"@)
            } else {
                wrap_spec(ffi_name_only(*e), "&["@, "]"@)
            },
            Ty::Str => if !m {
                Some("&str"@)
            } else {
                wrap_spec(ffi_name_only(*inner), "Pin<&mut "@, ">"@)
            },
            _ => if m {
                wrap_spec(ffi_name_only(*inner), "Pin<&mut "@, ">"@)
            } else {
                wrap_spec(ffi_name_only(*inner), "&"@, ""@)
            },
        },
        Ty::Optional(inner) => if !is_return {
            None
        } else if is_object_shape(*inner) {
            ffi_type(*inner, true)
        } else {
            wrap_spec(ffi_type(*inner, true), "Result<"@, ">"@)
        },
        Ty::UniquePtr(inner) => wrap_spec(ffi_name_only(*inner), "UniquePtr<"@, ">"@),
        Ty::Slice(inner) => wrap_spec(ffi_name_only(*inner), "["@, "]"@),
        Ty::Fallible(inner) => if !is_return {
            None
        } else {
            wrap_spec(ffi_type(*inner, true), "Result<"@, ">"@)
        },
    }
}

/// The marker type that names `t` in the wrapper's handle family, where it has one.
pub open spec fn rust_tag(t: Ty) -> Option<Seq<char>>
    decreases t,
{
    match t {
        Ty::Object(s) | Ty::Primitive(s) => Some(s),
        Ty::Vector(i, p) => if p {
            wrap_spec(rust_tag(*i), "CppVectorPtr<"@, ">"@)
        } else {
            wrap_spec(rust_tag(*i), "CppVector<"@, ">"@)
        },
        Ty::Mapping(k, v, p) => match (rust_tag(*k), rust_tag(*v)) {
            (Some(kt), Some(vt)) => if p {
                Some("CppMapPtr<"@ + kt + ", "@ + vt + ">"@)
            } else {
                Some("CppMap<"@ + kt + ", "@ + vt + ">"@)
            },
            _ => None,
        },
        Ty::Str => Some("String"@),
        _ => None,
    }
}

/// The parameter type that the safe wrapper API gives `t`, where it has one.
pub open spec fn wrapper_arg_type(t: Ty) -> Option<Seq<char>>
    decreases t,
{
    match t {
        Ty::Reference(inner, m) => match *inner {
            Ty::Slice(si) => if m {
                wrap_spec(wrapper_arg_type(*si), "&mut ["@, "]"@)
            } else {
                wrap_spec(wrapper_arg_type(*si), "&["@, "]"@)
            },
            Ty::Str => Some("&str"@),
            _ => if is_object_shape(*inner) {
                if m {
                    wrap_spec(rust_tag(*inner), "&mut justcxx::CppMut<'_, "@, ">"@)
                } else {
                    wrap_spec(rust_tag(*inner), "justcxx::CppRef<'_, "@, ">"@)
                }
            } else if m {
                wrap_spec(wrapper_arg_type(*inner), "&mut "@, ""@)
            } else {
                wrap_spec(wrapper_arg_type(*inner), "&"@, ""@)
            },
        },
        Ty::Object(_) | Ty::Vector(..) | Ty::Mapping(..) => wrap_spec(
            rust_tag(t),
            "justcxx::CppOwned<"@,
            ">"@,
        ),
        Ty::Primitive(s) => Some(s),
        Ty::Str => Some("&str"@),
        _ => None,
    }
}

/// The result type that the safe wrapper API gives `t`, with `lt` as the
/// lifetime of borrowed handles.
pub open spec fn wrapper_ret_type(t: Ty, lt: Seq<char>) -> Option<Seq<char>>
    decreases t,
{
    match t {
        Ty::Reference(inner, m) => match *inner {
            Ty::Slice(si) => if m {
                wrap_spec(wrapper_arg_type(*si), "&mut ["@, "]"@)
            } else {
                wrap_spec(wrapper_arg_type(*si), "&["@, "]"@)
            },
            _ => if is_object_shape(*inner) {
                if m {
                    wrap_spec(rust_tag(*inner), "justcxx::CppMut<"@ + lt + ", "@, ">"@)
                } else {
                    wrap_spec(rust_tag(*inner), "justcxx::CppRef<"@ + lt + ", "@, ">"@)
                }
            } else if m {
                wrap_spec(wrapper_ret_type(*inner, "'_"@), "&mut "@, ""@)
            } else {
                wrap_spec(wrapper_ret_type(*inner, "'_"@), "&"@, ""@)
            },
        },
        Ty::Optional(inner) => wrap_spec(wrapper_ret_type(*inner, lt), "Option<"@, ">"@),
        Ty::Object(_) | Ty::Vector(..) | Ty::Mapping(..) => wrap_spec(
            rust_tag(t),
            "justcxx::CppOwned<"@,
            ">"@,
        ),
        Ty::Str => Some("String"@),
        Ty::Primitive(s) => Some(s),
        _ => None,
    }
}

/// The expression that hands wrapper argument `arg` of type `t` to the foreign call.
pub open spec fn arg_conversion(t: Ty, arg: Seq<char>) -> Seq<char> {
    match t {
        Ty::Reference(inner, m) => if is_object_shape(*inner) {
            if m {
                "std::pin::Pin::new_unchecked(&mut *"@ + arg + ".as_ptr())"@
            } else {
                "&*"@ + arg + ".as_ptr()"@
            }
        } else {
            arg
        },
        Ty::Object(_) | Ty::Vector(..) | Ty::Mapping(..) => arg + ".inner"@,
        _ => arg,
    }
}

pub open spec fn handle_from(var: Seq<char>) -> Seq<char> {
    "CppObject { inner: "@ + var + ", _marker: std::marker::PhantomData }"@
}

/// The code that turns the foreign call's result `expr` of type `t` into the wrapper's result.
pub open spec fn ret_conversion(t: Ty, expr: Seq<char>) -> Seq<char>
    decreases t,
{
    match t {
        Ty::Optional(inner) => if is_object_shape(*inner) {
            "let val = "@ + expr + "; if val.is_null() { None } else { Some({ "@
                + ret_conversion(*inner, "val"@) + " }) }"@
        } else {
            "match "@ + expr + " { Ok(val) => Some({ "@ + ret_conversion(*inner, "val"@)
                + " }), Err(_) => None }"@
        },
        Ty::Reference(inner, m) => if is_object_shape(*inner) {
            "let ffi_ret = "@ + expr + "; let ret_ptr = "@ + (if m {
                "ffi_ret.get_unchecked_mut() as *mut _"@
            } else {
                "(ffi_ret as *const _) as *mut _"@
            }) + "; "@ + handle_from("ret_ptr"@)
        } else {
            expr
        },
        Ty::Object(_) | Ty::Vector(..) | Ty::Mapping(..) => "let unique_ptr = "@ + expr + "; "@
            + handle_from("unique_ptr"@),
        _ => expr,
    }
}

impl TypeKind {
    pub fn new_ref(inner: TypeKind, is_mut: bool) -> (r: Self)
        ensures
            r@ == Ty::Reference(Box::new(inner@), is_mut),
    {
        TypeKind::Reference { inner: Box::new(inner), is_mut }
    }

    pub fn new_mut_ref(inner: TypeKind) -> (r: Self)
        ensures
            r@ == Ty::Reference(Box::new(inner@), true),
    {
        Self::new_ref(inner, true)
    }

    pub fn new_const_ref(inner: TypeKind) -> (r: Self)
        ensures
            r@ == Ty::Reference(Box::new(inner@), false),
    {
        Self::new_ref(inner, false)
    }

    pub fn new_unique_ptr(inner: TypeKind) -> (r: Self)
        ensures
            r@ == Ty::UniquePtr(Box::new(inner@)),
    {
        TypeKind::UniquePtr(Box::new(inner))
    }

    pub fn new_result(inner: TypeKind) -> (r: Self)
        ensures
            r@ == Ty::Fallible(Box::new(inner@)),
    {
        TypeKind::Result(Box::new(inner))
    }

    /// A copy of this type with the same shape and names.
    pub fn duplicate(&self) -> (r: TypeKind)
        ensures
            r@ == self@,
        decreases self,
    {
        match self {
            TypeKind::Primitive(s) => TypeKind::Primitive(s.clone()),
            TypeKind::String => TypeKind::String,
            TypeKind::Object(s) => TypeKind::Object(s.clone()),
            TypeKind::Vector { inner, is_ptr } => TypeKind::Vector {
                inner: Box::new(inner.duplicate()),
                is_ptr: *is_ptr,
            },
            TypeKind::Mapping { key, value, is_val_ptr } => TypeKind::Mapping {
                key: Box::new(key.duplicate()),
                value: Box::new(value.duplicate()),
                is_val_ptr: *is_val_ptr,
            },
            TypeKind::Option(i) => TypeKind::Option(Box::new(i.duplicate())),
            TypeKind::Result(i) => TypeKind::Result(Box::new(i.duplicate())),
            TypeKind::Reference { inner, is_mut } => TypeKind::Reference {
                inner: Box::new(inner.duplicate()),
                is_mut: *is_mut,
            },
            TypeKind::UniquePtr(i) => TypeKind::UniquePtr(Box::new(i.duplicate())),
            TypeKind::Slice(i) => TypeKind::Slice(Box::new(i.duplicate())),
        }
    }

    /// Structural equality of two types.
    pub fn same_as(&self, other: &TypeKind) -> (r: bool)
        ensures
            r == (self@ == other@),
        decreases self,
    {
        match (self, other) {
            (TypeKind::Primitive(a), TypeKind::Primitive(b)) => a.eq(b),
            (TypeKind::String, TypeKind::String) => true,
            (TypeKind::Object(a), TypeKind::Object(b)) => a.eq(b),
            (
                TypeKind::Vector { inner: a, is_ptr: p },
                TypeKind::Vector { inner: b, is_ptr: q },
            ) => *p == *q && a.same_as(b),
            (
                TypeKind::Mapping { key: k1, value: v1, is_val_ptr: p },
                TypeKind::Mapping { key: k2, value: v2, is_val_ptr: q },
            ) => *p == *q && k1.same_as(k2) && v1.same_as(v2),
            (TypeKind::Option(a), TypeKind::Option(b)) => a.same_as(b),
            (TypeKind::Result(a), TypeKind::Result(b)) => a.same_as(b),
            (
                TypeKind::Reference { inner: a, is_mut: p },
                TypeKind::Reference { inner: b, is_mut: q },
            ) => *p == *q && a.same_as(b),
            (TypeKind::UniquePtr(a), TypeKind::UniquePtr(b)) => a.same_as(b),
            (TypeKind::Slice(a), TypeKind::Slice(b)) => a.same_as(b),
            _ => false,
        }
    }

    pub fn is_object_value(&self) -> (r: bool)
        ensures
            r == is_object_shape(self@),
    {
        matches!(self, TypeKind::Object(_) | TypeKind::Vector { .. } | TypeKind::Mapping { .. })
    }

    pub fn is_nameable(&self) -> (r: bool)
        ensures
            r == nameable(self@),
        decreases self,
    {
        match self {
            TypeKind::Primitive(_) | TypeKind::String | TypeKind::Object(_) => true,
            TypeKind::Vector { inner, .. } => inner.is_nameable(),
            TypeKind::Mapping { key, value, .. } => key.is_nameable() && value.is_nameable(),
            TypeKind::Option(i) | TypeKind::Result(i) | TypeKind::UniquePtr(i) => i.is_nameable(),
            TypeKind::Reference { inner, .. } => inner.is_nameable(),
            TypeKind::Slice(_) => false,
        }
    }

    pub fn get_flat_name(&self) -> (r: String)
        requires
            nameable(self@),
        ensures
            r@ == flat_name(self@),
        decreases self,
    {
        match self {
            TypeKind::Primitive(s) | TypeKind::Object(s) => s.clone(),
            TypeKind::String => String::from_str("String"),
            TypeKind::Vector { inner, is_ptr } => {
                let prefix: &str = if *is_ptr { "Vec_Ptr" } else { "Vec" };
                let n = inner.get_flat_name();
                cat3(prefix, "_", n.as_str())
            },
            TypeKind::Mapping { key, value, is_val_ptr } => {
                let prefix: &str = if *is_val_ptr { "Map_Ptr" } else { "Map" };
                let k = key.get_flat_name();
                let v = value.get_flat_name();
                let mut r = cat3(prefix, "_", k.as_str());
                r.append("_");
                r.append(v.as_str());
                r
            },
            TypeKind::Option(i) | TypeKind::Result(i) | TypeKind::UniquePtr(i) => i.get_flat_name(),
            TypeKind::Reference { inner, .. } => inner.get_flat_name(),
            TypeKind::Slice(_) => String::new(),
        }
    }

    pub fn to_ffi_type_name_only(&self) -> (r: Option<String>)
        ensures
            opt_view(r) == ffi_name_only(self@),
    {
        match self {
            TypeKind::Primitive(s) | TypeKind::Object(s) => Some(s.clone()),
            TypeKind::String => Some(String::from_str("CxxString")),
            TypeKind::Vector { .. } | TypeKind::Mapping { .. } => {
                if self.is_nameable() {
                    Some(self.get_flat_name())
                } else {
                    None
                }
            },
            _ => None,
        }
    }

    /// An `Option` or a `Result` has no argument form: as an argument it is
    /// a declaration error, which callers rule out.
    pub fn to_ffi_type(&self, is_return: bool) -> (r: Option<String>)
        requires
            is_return || !(self@ is Optional || self@ is Fallible),
        ensures
            opt_view(r) == ffi_type(self@, is_return),
        decreases self,
    {
        match self {
            TypeKind::Primitive(s) => Some(s.clone()),
            TypeKind::String => if is_return {
                Some(String::from_str("String"))
            } else {
                Some(String::from_str("&str"))
            },
            TypeKind::Object(s) => Some(cat3("UniquePtr<", s.as_str(), ">")),
            TypeKind::Vector { .. } | TypeKind::Mapping { .. } => wrap(
                self.to_ffi_type_name_only(),
                "UniquePtr<",
                ">",
            ),
            TypeKind::Reference { inner, is_mut } => {
                proof {
                    reveal_with_fuel(ty_of, 2);
                }
                match &**inner {
                    TypeKind::Slice(e) => {
                        if *is_mut {
                            wrap(e.to_ffi_type_name_only(), "&mut [", "]")
                        } else {
                            wrap(e.to_ffi_type_name_only(), "&[", "]")
                        }
                    },
                    TypeKind::String => {
                        if !*is_mut {
                            Some(String::from_str("&str"))
                        } else {
                            wrap(inner.to_ffi_type_name_only(), "Pin<&mut ", ">")
                        }
                    },
                    _ => {
                        if *is_mut {
                            wrap(inner.to_ffi_type_name_only(), "Pin<&mut ", ">")
                        } else {
                            wrap(inner.to_ffi_type_name_only(), "&", "")
                        }
                    },
                }
            },
            TypeKind::Option(inner) => {
                if !is_return {
                    None
                } else if inner.is_object_value() {
                    inner.to_ffi_type(true)
                } else {
                    wrap(inner.to_ffi_type(true), "Result<", ">")
                }
            },
            TypeKind::UniquePtr(inner) => wrap(inner.to_ffi_type_name_only(), "UniquePtr<", ">"),
            TypeKind::Slice(inner) => wrap(inner.to_ffi_type_name_only(), "[", "]"),
            TypeKind::Result(inner) => {
                if !is_return {
                    None
                } else {
                    wrap(inner.to_ffi_type(true), "Result<", ">")
                }
            },
        }
    }

    pub fn to_rust_tag(&self) -> (r: Option<String>)
        ensures
            opt_view(r) == rust_tag(self@),
        decreases self,
    {
        match self {
            TypeKind::Object(s) | TypeKind::Primitive(s) => Some(s.clone()),
            TypeKind::Vector { inner, is_ptr } => {
                if *is_ptr {
                    wrap(inner.to_rust_tag(), "CppVectorPtr<", ">")
                } else {
                    wrap(inner.to_rust_tag(), "CppVector<", ">")
                }
            },
            TypeKind::Mapping { key, value, is_val_ptr } => {
                match (key.to_rust_tag(), value.to_rust_tag()) {
                    (Some(kt), Some(vt)) => {
                        let mut r = String::from_str(
                            if *is_val_ptr { "CppMapPtr<" } else { "CppMap<" },
                        );
                        r.append(kt.as_str());
                        r.append(", ");
                        r.append(vt.as_str());
                        r.append(">");
                        Some(r)
                    },
                    _ => None,
                }
            },
            TypeKind::String => Some(String::from_str("String")),
            _ => None,
        }
    }

    pub fn to_rust_wrapper_arg_type(&self) -> (r: Option<String>)
        ensures
            opt_view(r) == wrapper_arg_type(self@),
        decreases self,
    {
        match self {
            TypeKind::Reference { inner, is_mut } => {
                proof {
                    reveal_with_fuel(ty_of, 2);
                }
                match &**inner {
                    TypeKind::Slice(si) => {
                        if *is_mut {
                            wrap(si.to_rust_wrapper_arg_type(), "&mut [", "]")
                        } else {
                            wrap(si.to_rust_wrapper_arg_type(), "&[", "]")
                        }
                    },
                    TypeKind::String => Some(String::from_str("&str")),
                    _ => {
                        if inner.is_object_value() {
                            if *is_mut {
                                wrap(inner.to_rust_tag(), "&mut justcxx::CppMut<'_, ", ">")
                            } else {
                                wrap(inner.to_rust_tag(), "justcxx::CppRef<'_, ", ">")
                            }
                        } else if *is_mut {
                            wrap(inner.to_rust_wrapper_arg_type(), "&mut ", "")
                        } else {
                            wrap(inner.to_rust_wrapper_arg_type(), "&", "")
                        }
                    },
                }
            },
            TypeKind::Object(_) | TypeKind::Vector { .. } | TypeKind::Mapping { .. } => {
                wrap(self.to_rust_tag(), "justcxx::CppOwned<", ">")
            },
            TypeKind::Primitive(s) => Some(s.clone()),
            TypeKind::String => Some(String::from_str("&str")),
            _ => None,
        }
    }

    /// `lifetime` names the lifetime of borrowed handles; without one it is `'_`.
    pub fn to_rust_wrapper_ret_type(&self, lifetime: Option<&str>) -> (r: Option<String>)
        ensures
            opt_view(r) == wrapper_ret_type(
                self@,
                match lifetime {
                    Some(l) => l@,
                    None => "'_"@,
                },
            ),
        decreases self,
    {
        let lt: &str = match lifetime {
            Some(l) => l,
            None => "'_",
        };
        match self {
            TypeKind::Reference { inner, is_mut } => {
                proof {
                    reveal_with_fuel(ty_of, 2);
                }
                match &**inner {
                    TypeKind::Slice(si) => {
                        if *is_mut {
                            wrap(si.to_rust_wrapper_arg_type(), "&mut [", "]")
                        } else {
                            wrap(si.to_rust_wrapper_arg_type(), "&[", "]")
                        }
                    },
                    _ => {
                        if inner.is_object_value() {
                            let pre = if *is_mut {
                                cat3("justcxx::CppMut<", lt, ", ")
                            } else {
                                cat3("justcxx::CppRef<", lt, ", ")
                            };
                            wrap(inner.to_rust_tag(), pre.as_str(), ">")
                        } else if *is_mut {
                            wrap(inner.to_rust_wrapper_ret_type(None), "&mut ", "")
                        } else {
                            wrap(inner.to_rust_wrapper_ret_type(None), "&", "")
                        }
                    },
                }
            },
            TypeKind::Option(inner) => wrap(
                inner.to_rust_wrapper_ret_type(Some(lt)),
                "Option<",
                ">",
            ),
            TypeKind::Object(_) | TypeKind::Vector { .. } | TypeKind::Mapping { .. } => {
                wrap(self.to_rust_tag(), "justcxx::CppOwned<", ">")
            },
            TypeKind::String => Some(String::from_str("String")),
            TypeKind::Primitive(s) => Some(s.clone()),
            _ => None,
        }
    }

    pub fn gen_arg_conversion(&self, arg_name: &str) -> (r: String)
        ensures
            r@ == arg_conversion(self@, arg_name@),
    {
        match self {
            TypeKind::Reference { inner, is_mut } => {
                if inner.is_object_value() {
                    if *is_mut {
                        cat3("std::pin::Pin::new_unchecked(&mut *", arg_name, ".as_ptr())")
                    } else {
                        cat3("&*", arg_name, ".as_ptr()")
                    }
                } else {
                    String::from_str(arg_name)
                }
            },
            TypeKind::Object(_) | TypeKind::Vector { .. } | TypeKind::Mapping { .. } => {
                cat2(arg_name, ".inner")
            },
            _ => String::from_str(arg_name),
        }
    }

    pub fn gen_ret_conversion(&self, ffi_expr: &str) -> (r: String)
        ensures
            r@ == ret_conversion(self@, ffi_expr@),
        decreases self,
    {
        match self {
            TypeKind::Option(inner) => {
                let inner_conv = inner.gen_ret_conversion("val");
                if inner.is_object_value() {
                    let mut r = cat3("let val = ", ffi_expr, "; if val.is_null() { None } else { Some({ ");
                    r.append(inner_conv.as_str());
                    r.append(" }) }");
                    r
                } else {
                    let mut r = cat3("match ", ffi_expr, " { Ok(val) => Some({ ");
                    r.append(inner_conv.as_str());
                    r.append(" }), Err(_) => None }");
                    r
                }
            },
            TypeKind::Reference { inner, is_mut } => {
                if inner.is_object_value() {
                    let mut r = cat3("let ffi_ret = ", ffi_expr, "; let ret_ptr = ");
                    r.append(
                        if *is_mut {
                            "ffi_ret.get_unchecked_mut() as *mut _"
                        } else {
                            "(ffi_ret as *const _) as *mut _"
                        },
                    );
                    r.append("; ");
                    r.append("CppObject { inner: ");
                    r.append("ret_ptr");
                    r.append(", _marker: std::marker::PhantomData }");
                    r
                } else {
                    String::from_str(ffi_expr)
                }
            },
            TypeKind::Object(_) | TypeKind::Vector { .. } | TypeKind::Mapping { .. } => {
                let mut r = cat3("let unique_ptr = ", ffi_expr, "; ");
                r.append("CppObject { inner: ");
                r.append("unique_ptr");
                r.append(", _marker: std::marker::PhantomData }");
                r
            },
            _ => String::from_str(ffi_expr),
        }
    }
}

} // verus!
