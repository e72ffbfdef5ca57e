use vstd::prelude::*;
use crate::types::{Ty, TypeKind};

verus! {

/// How a method receives the object it is called on.
#[derive(Clone, Copy, PartialEq, Eq, Structural, Debug)]
pub enum MethodKind {
    Static,
    Const,
    Mutable,
}

/// The accessor shape of a field, derived from its resolved type.
#[derive(Clone, Copy, PartialEq, Eq, Structural, Debug)]
pub enum FieldKind {
    Val,
    Obj,
    OptVal,
    OptObj,
    Vector,
    Mapping,
}

/// A declared field: its name, type, and the `protected` and `readonly` markers.
pub struct FieldDef {
    pub name: String,
    pub ty: TypeKind,
    pub is_protected: bool,
    pub is_readonly: bool,
}

/// A named method argument.
pub struct Arg {
    pub name: String,
    pub ty: TypeKind,
}

/// A plain method: receiver kind, arguments, optional result, native name.
pub struct FnDef {
    pub rust_name: String,
    pub cpp_name: String,
    pub args: Vec<Arg>,
    pub ret_ty: Option<TypeKind>,
    pub kind: MethodKind,
    pub is_protected: bool,
}

/// An iterator method: the item type and whether the receiver and items are mutable or owned.
pub struct IterDef {
    pub rust_name: String,
    pub yield_ty: TypeKind,
    pub cpp_name: String,
    pub is_iter_mut: bool,
    pub is_owned: bool,
    /// Whether borrowed items are handed out mutably (`&mut T`).
    pub is_item_mut: bool,
}

/// A constructor; `is_user_defined` where the native side supplies its own factory `cpp_name`.
pub struct CtorDef {
    pub rust_name: String,
    pub args: Vec<Arg>,
    pub cpp_name: String,
    pub is_user_defined: bool,
}

/// One declared method, classified.
pub enum MethodDef {
    Ctor(CtorDef),
    Iter(IterDef),
    Method(FnDef),
}

/// A struct declaration of the input.
pub struct StructDef {
    pub name: String,
    pub fields: Vec<FieldDef>,
}

/// An impl block of the input, with the struct it extends.
pub struct ImplDef {
    pub target: String,
    pub methods: Vec<MethodDef>,
}

/// A top-level item of the input.
pub enum BindItem {
    Include(String),
    Struct(StructDef),
    Impl(ImplDef),
}

/// The declaration block, item by item.
pub struct BindInput {
    pub items: Vec<BindItem>,
}

/// One modeled class: its fields and methods, and whether protected members
/// must be reached through an exposer.
pub struct ClassModel {
    pub name: String,
    pub fields: Vec<FieldDef>,
    pub methods: Vec<MethodDef>,
    pub needs_exposer: bool,
}

/// The names of the symbols that make up the iteration protocol of one iterator method.
pub struct IterNames {
    pub struct_name: String,
    pub ctx_name: String,
    pub new_fn: String,
    pub next_fn: String,
}

/// Everything the emitters consume: the includes, the models in declaration
/// order, and the container instantiations that the models need.
pub struct BindContext {
    pub includes: Vec<String>,
    pub models: Vec<ClassModel>,
    pub vec_defs: Vec<TypeKind>,
    pub map_defs: Vec<TypeKind>,
}

// ---------------------------------------------------------------- views

/// The mathematical form of a `FieldDef`.
pub struct FieldV {
    pub name: Seq<char>,
    pub ty: Ty,
    pub is_protected: bool,
    pub is_readonly: bool,
}

/// The mathematical form of an `Arg`.
pub struct ArgV {
    pub name: Seq<char>,
    pub ty: Ty,
}

/// The mathematical form of a `MethodDef`.
pub enum MethodV {
    Ctor { rust_name: Seq<char>, args: Seq<ArgV>, cpp_name: Seq<char>, is_user_defined: bool },
    Iter {
        rust_name: Seq<char>,
        yield_ty: Ty,
        cpp_name: Seq<char>,
        is_iter_mut: bool,
        is_owned: bool,
        is_item_mut: bool,
    },
    Method {
        rust_name: Seq<char>,
        cpp_name: Seq<char>,
        args: Seq<ArgV>,
        ret_ty: Option<Ty>,
        kind: MethodKind,
        is_protected: bool,
    },
}

/// The mathematical form of a `ClassModel`.
pub struct ClassV {
    pub name: Seq<char>,
    pub fields: Seq<FieldV>,
    pub methods: Seq<MethodV>,
    pub needs_exposer: bool,
}

impl View for FieldDef {
    type V = FieldV;

    open spec fn view(&self) -> FieldV {
        FieldV {
            name: self.name@,
            ty: self.ty@,
            is_protected: self.is_protected,
            is_readonly: self.is_readonly,
        }
    }
}

impl View for Arg {
    type V = ArgV;

    open spec fn view(&self) -> ArgV {
        ArgV { name: self.name@, ty: self.ty@ }
    }
}

pub open spec fn args_view(a: Seq<Arg>) -> Seq<ArgV> {
    a.map_values(|x: Arg| x@)
}

pub open spec fn opt_ty_view(o: Option<TypeKind>) -> Option<Ty> {
    match o {
        Some(t) => Some(t@),
        None => None,
    }
}

impl View for MethodDef {
    type V = MethodV;

    open spec fn view(&self) -> MethodV {
        match self {
            MethodDef::Ctor(c) => MethodV::Ctor {
                rust_name: c.rust_name@,
                args: args_view(c.args@),
                cpp_name: c.cpp_name@,
                is_user_defined: c.is_user_defined,
            },
            MethodDef::Iter(i) => MethodV::Iter {
                rust_name: i.rust_name@,
                yield_ty: i.yield_ty@,
                cpp_name: i.cpp_name@,
                is_iter_mut: i.is_iter_mut,
                is_owned: i.is_owned,
                is_item_mut: i.is_item_mut,
            },
            MethodDef::Method(f) => MethodV::Method {
                rust_name: f.rust_name@,
                cpp_name: f.cpp_name@,
                args: args_view(f.args@),
                ret_ty: opt_ty_view(f.ret_ty),
                kind: f.kind,
                is_protected: f.is_protected,
            },
        }
    }
}

pub open spec fn fields_view(f: Seq<FieldDef>) -> Seq<FieldV> {
    f.map_values(|x: FieldDef| x@)
}

pub open spec fn methods_view(m: Seq<MethodDef>) -> Seq<MethodV> {
    m.map_values(|x: MethodDef| x@)
}

impl View for ClassModel {
    type V = ClassV;

    open spec fn view(&self) -> ClassV {
        ClassV {
            name: self.name@,
            fields: fields_view(self.fields@),
            methods: methods_view(self.methods@),
            needs_exposer: self.needs_exposer,
        }
    }
}

pub open spec fn models_view(m: Seq<ClassModel>) -> Seq<ClassV> {
    m.map_values(|x: ClassModel| x@)
}

pub open spec fn types_view(v: Seq<TypeKind>) -> Seq<Ty> {
    v.map_values(|x: TypeKind| x@)
}

/// The field accessor shape that a resolved field type calls for.
pub open spec fn field_kind_of(t: Ty) -> FieldKind {
    match t {
        Ty::Vector(..) => FieldKind::Vector,
        Ty::Mapping(..) => FieldKind::Mapping,
        Ty::Object(_) => FieldKind::Obj,
        Ty::Optional(i) => if *i is Object { FieldKind::OptObj } else { FieldKind::OptVal },
        _ => FieldKind::Val,
    }
}

/// Only plain values and objects that are not readonly get a setter.
pub open spec fn field_has_setter(f: FieldV) -> bool {
    !f.is_readonly && (field_kind_of(f.ty) is Val || field_kind_of(f.ty) is Obj)
}

impl FieldDef {
    pub fn has_setter(&self) -> (r: bool)
        ensures
            r == field_has_setter(self@),
    {
        let k = self.kind();
        !self.is_readonly && (k == FieldKind::Val || k == FieldKind::Obj)
    }

    pub fn kind(&self) -> (r: FieldKind)
        ensures
            r == field_kind_of(self.ty@),
    {
        proof {
            reveal_with_fuel(crate::types::ty_of, 2);
        }
        match &self.ty {
            TypeKind::Vector { .. } => FieldKind::Vector,
            TypeKind::Mapping { .. } => FieldKind::Mapping,
            TypeKind::Object(_) => FieldKind::Obj,
            TypeKind::Option(i) => {
                if let TypeKind::Object(_) = &**i {
                    FieldKind::OptObj
                } else {
                    FieldKind::OptVal
                }
            },
            _ => FieldKind::Val,
        }
    }
}

} // verus!
