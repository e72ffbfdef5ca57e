use vstd::prelude::*;
use crate::text::{cat2, cat3, lemma_text_assoc, opt_view, wrap, wrap_spec};
use crate::registry::{class_valid, exposer_compatible, map_key_ok, map_keys_ok, registry_list_ok};
use crate::types::{ffi_name_only, ffi_type, flat_name, is_object_shape, nameable, Ty, TypeKind};
use crate::model::{
    field_has_setter, args_view, models_view, types_view, ArgV, Arg, BindContext, ClassModel, IterNames, ClassV, CtorDef, FieldDef, FieldV, FnDef, IterDef, MethodDef,
    MethodKind, MethodV,
};

verus! {

broadcast use lemma_text_assoc;

/// One foreign function declaration: Rust-side name `rust`, native name
/// `cpp`, parameter list and result clause (empty or ` -> T`).
#[verifier::opaque]
pub open spec fn decl(rust: Seq<char>, cpp: Seq<char>, params: Seq<char>, ret: Seq<char>) -> Seq<char> {
    "#[rust_name = \""@ + rust + "\"]\nfn "@ + cpp + "("@ + params + ")"@ + ret + ";\n"@
}

pub fn push_decl(out: &mut String, rust: &str, cpp: &str, params: &str, ret: &str)
    ensures
        final(out)@ == old(out)@ + decl(rust@, cpp@, params@, ret@),
{
    proof {
        reveal(decl);
    }
    out.append("#[rust_name = \"");
    out.append(rust);
    out.append("\"]\nfn ");
    out.append(cpp);
    out.append("(");
    out.append(params);
    out.append(")");
    out.append(ret);
    out.append(";\n");
}

/// The parameter list of a foreign declaration, `name: Type` joined by `, `.
pub open spec fn ffi_params(a: Seq<ArgV>) -> Option<Seq<char>>
    decreases a.len(),
{
    if a.len() == 0 {
        Some(Seq::empty())
    } else {
        match (ffi_params(a.drop_last()), ffi_type(a.last().ty, false)) {
            (Some(p), Some(t)) => Some(
                if a.len() == 1 { p } else { p + ", "@ } + a.last().name + ": "@ + t,
            ),
            _ => None,
        }
    }
}

proof fn lemma_ffi_params_none(a: Seq<ArgV>, k: int)
    requires
        0 <= k <= a.len(),
        ffi_params(a.subrange(0, k)) is None,
    ensures
        ffi_params(a) is None,
    decreases a.len() - k,
{
    if k < a.len() {
        assert(a.subrange(0, k + 1).drop_last() =~= a.subrange(0, k));
        lemma_ffi_params_none(a, k + 1);
    } else {
        assert(a.subrange(0, k) =~= a);
    }
}

/// The argument form of `t`; none for an `Option` or a `Result`.
fn arg_form_of(t: &TypeKind) -> (r: Option<String>)
    ensures
        opt_view(r) == ffi_type(t@, false),
{
    match t {
        TypeKind::Option(_) | TypeKind::Result(_) => None,
        _ => t.to_ffi_type(false),
    }
}

pub fn convert_args(args: &Vec<Arg>) -> (r: Option<String>)
    ensures
        opt_view(r) == ffi_params(args_view(args@)),
{
    let ghost av = args_view(args@);
    let mut out = String::new();
    let mut i: usize = 0;
    while i < args.len()
        invariant
            0 <= i <= args@.len(),
            av == args_view(args@),
            ffi_params(av.subrange(0, i as int)) == Some(out@),
        decreases args@.len() - i,
    {
        let t = arg_form_of(&args[i].ty);
        proof {
            let pre = av.subrange(0, i + 1);
            assert(pre.drop_last() =~= av.subrange(0, i as int));
            assert(pre.last() == args@[i as int]@);
        }
        match t {
            Some(t) => {
                if i > 0 {
                    out.append(", ");
                }
                out.append(args[i].name.as_str());
                out.append(": ");
                out.append(t.as_str());
            },
            None => {
                proof {
                    lemma_ffi_params_none(av, i + 1);
                }
                return None;
            },
        }
        i = i + 1;
    }
    assert(av.subrange(0, i as int) =~= av);
    Some(out)
}

/// The result clause of a foreign declaration.
pub open spec fn ffi_ret(r: Option<Ty>) -> Option<Seq<char>> {
    match r {
        Some(t) => match ffi_type(t, true) {
            Some(s) => Some(" -> "@ + s),
            None => None,
        },
        None => Some(Seq::empty()),
    }
}

pub fn convert_ret(ret: &Option<TypeKind>) -> (r: Option<String>)
    ensures
        opt_view(r) == ffi_ret(crate::model::opt_ty_view(*ret)),
{
    match ret {
        Some(t) => match t.to_ffi_type(true) {
            Some(s) => Some(cat2(" -> ", s.as_str())),
            None => None,
        },
        None => Some(String::new()),
    }
}

/// The Rust-side and native names of a constructor (`is_ctor`) or method.
pub open spec fn method_names(class: Seq<char>, rust: Seq<char>, exposer: bool, is_ctor: bool) -> (Seq<char>, Seq<char>) {
    let base = if is_ctor {
        "make_"@ + class + "_"@ + rust
    } else {
        class + "_method_"@ + rust
    };
    let cpp = if !exposer {
        base
    } else if is_ctor {
        "make_"@ + class + "_Exposer_"@ + rust
    } else {
        class + "_Exposer_method_"@ + rust
    };
    (base, cpp)
}

pub fn get_method_names(class_name: &str, rust_name: &str, needs_exposer: bool, is_ctor: bool) -> (r: (String, String))
    ensures
        (r.0@, r.1@) == method_names(class_name@, rust_name@, needs_exposer, is_ctor),
{
    let base = if is_ctor {
        let mut b = cat3("make_", class_name, "_");
        b.append(rust_name);
        b
    } else {
        cat3(class_name, "_method_", rust_name)
    };
    let cpp = if !needs_exposer {
        base.clone()
    } else if is_ctor {
        let mut b = cat3("make_", class_name, "_Exposer_");
        b.append(rust_name);
        b
    } else {
        cat3(class_name, "_Exposer_method_", rust_name)
    };
    (base, cpp)
}

/// The receiver parameter of a method in a foreign declaration.
pub open spec fn receiver_param(class: Seq<char>, kind: MethodKind) -> Seq<char> {
    match kind {
        MethodKind::Static => Seq::empty(),
        MethodKind::Const => "obj: &"@ + class,
        MethodKind::Mutable => "obj: Pin<&mut "@ + class + ">"@,
    }
}

pub open spec fn join_params(a: Seq<char>, b: Seq<char>) -> Seq<char> {
    if a.len() == 0 { b } else if b.len() == 0 { a } else { a + ", "@ + b }
}

pub(crate) fn join_params_of(a: &str, b: &str) -> (r: String)
    ensures
        r@ == join_params(a@, b@),
{
    if a.unicode_len() == 0 {
        String::from_str(b)
    } else if b.unicode_len() == 0 {
        String::from_str(a)
    } else {
        cat3(a, ", ", b)
    }
}

/// What the native step of an iterator returns: an owned copy of the item,
/// or a pointer to the item in place where items are borrowed.
pub open spec fn next_ret(y: Seq<char>, is_owned: bool) -> Seq<char> {
    if is_owned { " -> UniquePtr<"@ + y + ">"@ } else { " -> *mut "@ + y }
}

/// The foreign declarations of method `m` of class `class`; none where a
/// type has no declaration form, or where an exposer meets a custom factory
/// or an iterator.
#[verifier::opaque]
pub open spec fn method_ffi(class: Seq<char>, exposer: bool, m: MethodV) -> Option<Seq<char>> {
    match m {
        MethodV::Ctor { rust_name, args, cpp_name, is_user_defined } => {
            if is_user_defined && exposer {
                None
            } else {
                let names = if is_user_defined {
                    (method_names(class, rust_name, exposer, true).0, cpp_name)
                } else {
                    method_names(class, rust_name, exposer, true)
                };
                match ffi_params(args) {
                    Some(p) => Some(decl(names.0, names.1, p, " -> UniquePtr<"@ + class + ">"@)),
                    None => None,
                }
            }
        },
        MethodV::Method { rust_name, args, ret_ty, kind, .. } => {
            let names = method_names(class, rust_name, exposer, false);
            match (ffi_params(args), ffi_ret(ret_ty)) {
                (Some(p), Some(r)) => Some(decl(names.0, names.1, join_params(receiver_param(class, kind), p), r)),
                _ => None,
            }
        },
        MethodV::Iter { rust_name, yield_ty, is_iter_mut, is_owned, .. } => {
            if exposer {
                None
            } else {
                let ctx = class + "_"@ + rust_name + "_IterCtx"@;
                let new_fn = class + "_"@ + rust_name + "_iter_new"@;
                let next_fn = class + "_"@ + rust_name + "_iter_next"@;
                let self_arg = if is_iter_mut { "Pin<&mut "@ + class + ">"@ } else { "&"@ + class };
                match ffi_name_only(yield_ty) {
                    Some(y) => Some("type "@ + ctx + ";\n"@
                        + decl(new_fn, new_fn, "obj: "@ + self_arg, " -> UniquePtr<"@ + ctx + ">"@)
                        + decl(next_fn, next_fn, "ctx: Pin<&mut "@ + ctx + ">"@, next_ret(y, is_owned))),
                    None => None,
                }
            }
        },
    }
}

impl CtorDef {
    pub fn generate_ffi(&self, class_name: &str, needs_exposer: bool) -> (r: Option<String>)
        requires
            !(self.is_user_defined && needs_exposer),
        ensures
            opt_view(r) == method_ffi(class_name@, needs_exposer, MethodDef::Ctor(*self)@),
    {
        proof {
            reveal(method_ffi);
        }
        let (base, native) = get_method_names(class_name, self.rust_name.as_str(), needs_exposer, true);
        let (ffi_rust, ffi_cpp) = if self.is_user_defined {
            (base, self.cpp_name.clone())
        } else {
            (base, native)
        };
        let params = match convert_args(&self.args) {
            Some(p) => p,
            None => {
                return None;
            },
        };
        let ret = cat3(" -> UniquePtr<", class_name, ">");
        let mut out = String::new();
        push_decl(&mut out, ffi_rust.as_str(), ffi_cpp.as_str(), params.as_str(), ret.as_str());
        Some(out)
    }
}

impl FnDef {
    pub fn generate_ffi(&self, class_name: &str, needs_exposer: bool) -> (r: Option<String>)
        ensures
            opt_view(r) == method_ffi(class_name@, needs_exposer, MethodDef::Method(*self)@),
    {
        proof {
            reveal(method_ffi);
        }
        let (ffi_rust, ffi_cpp) = get_method_names(class_name, self.rust_name.as_str(), needs_exposer, false);
        let params = match convert_args(&self.args) {
            Some(p) => p,
            None => {
                return None;
            },
        };
        let ret = match convert_ret(&self.ret_ty) {
            Some(r) => r,
            None => {
                return None;
            },
        };
        let receiver = match self.kind {
            MethodKind::Static => String::new(),
            MethodKind::Const => cat2("obj: &", class_name),
            MethodKind::Mutable => cat3("obj: Pin<&mut ", class_name, ">"),
        };
        let all = join_params_of(receiver.as_str(), params.as_str());
        let mut out = String::new();
        push_decl(&mut out, ffi_rust.as_str(), ffi_cpp.as_str(), all.as_str(), ret.as_str());
        Some(out)
    }
}

impl IterDef {
    pub fn generate_ffi(&self, class_name: &str, needs_exposer: bool) -> (r: Option<String>)
        requires
            !needs_exposer,
        ensures
            opt_view(r) == method_ffi(class_name@, needs_exposer, MethodDef::Iter(*self)@),
    {
        proof {
            reveal(method_ffi);
        }
        let names = IterNames::new(class_name, self.rust_name.as_str());
        let y = match self.yield_ty.to_ffi_type_name_only() {
            Some(y) => y,
            None => {
                return None;
            },
        };
        let self_arg = if self.is_iter_mut {
            cat3("Pin<&mut ", class_name, ">")
        } else {
            cat2("&", class_name)
        };
        let mut out = cat3("type ", names.ctx_name.as_str(), ";\n");
        let new_params = cat2("obj: ", self_arg.as_str());
        let new_ret = cat3(" -> UniquePtr<", names.ctx_name.as_str(), ">");
        push_decl(&mut out, names.new_fn.as_str(), names.new_fn.as_str(), new_params.as_str(), new_ret.as_str());
        let next_params = cat3("ctx: Pin<&mut ", names.ctx_name.as_str(), ">");
        let next_ret = if self.is_owned { cat3(" -> UniquePtr<", y.as_str(), ">") } else { cat2(" -> *mut ", y.as_str()) };
        push_decl(&mut out, names.next_fn.as_str(), names.next_fn.as_str(), next_params.as_str(), next_ret.as_str());
        Some(out)
    }
}

impl IterNames {
    pub fn new(class_name: &str, method_name: &str) -> (r: Self)
        ensures
            r.struct_name@ == class_name@ + "_"@ + method_name@ + "_Iter"@,
            r.ctx_name@ == class_name@ + "_"@ + method_name@ + "_IterCtx"@,
            r.new_fn@ == class_name@ + "_"@ + method_name@ + "_iter_new"@,
            r.next_fn@ == class_name@ + "_"@ + method_name@ + "_iter_next"@,
    {
        let base = cat3(class_name, "_", method_name);
        IterNames {
            struct_name: cat2(base.as_str(), "_Iter"),
            ctx_name: cat2(base.as_str(), "_IterCtx"),
            new_fn: cat2(base.as_str(), "_iter_new"),
            next_fn: cat2(base.as_str(), "_iter_next"),
        }
    }
}

pub fn generate_ffi_method(class: &ClassModel, method: &MethodDef) -> (r: Option<String>)
    requires
        exposer_compatible(class.needs_exposer, method@),
    ensures
        opt_view(r) == method_ffi(class.name@, class.needs_exposer, method@),
{
    let n = class.name.as_str();
    match method {
        MethodDef::Ctor(c) => c.generate_ffi(n, class.needs_exposer),
        MethodDef::Iter(i) => i.generate_ffi(n, class.needs_exposer),
        MethodDef::Method(f) => f.generate_ffi(n, class.needs_exposer),
    }
}

// ---------------------------------------------------------------- fields

#[verifier::opaque]
pub open spec fn field_getter(class: Seq<char>, cxx_get: Seq<char>, rust_get: Seq<char>, ret: Seq<char>, const_self: bool) -> Seq<char> {
    let obj = if const_self { "obj: &"@ + class } else { "obj: Pin<&mut "@ + class + ">"@ };
    decl(rust_get, cxx_get, obj, " -> "@ + ret)
}

#[verifier::opaque]
pub open spec fn field_setter(class: Seq<char>, cxx_set: Seq<char>, rust_set: Seq<char>, arg: Seq<char>) -> Seq<char> {
    decl(rust_set, cxx_set, "obj: Pin<&mut "@ + class + ">, val: "@ + arg, ""@)
}

/// The getter result type of a field of type `t`, and whether the getter
/// takes a const receiver.
pub open spec fn field_getter_type(t: Ty, readonly: bool) -> (Option<Seq<char>>, bool) {
    match t {
        Ty::Object(_) | Ty::Vector(..) | Ty::Mapping(..) => if readonly {
            (ffi_type(Ty::Reference(Box::new(t), false), true), true)
        } else {
            (ffi_type(Ty::Reference(Box::new(t), true), true), false)
        },
        Ty::Optional(inner) => if is_object_shape(*inner) {
            if readonly {
                (ffi_type(Ty::Fallible(Box::new(Ty::Reference(inner, false))), true), true)
            } else {
                (ffi_type(Ty::Fallible(Box::new(Ty::Reference(inner, true))), true), false)
            }
        } else {
            (ffi_type(Ty::Fallible(inner), true), true)
        },
        _ => (ffi_type(t, true), true),
    }
}

/// The setter argument type of a field of type `t`.
pub open spec fn field_setter_type(t: Ty) -> Option<Seq<char>> {
    if t is Object { ffi_type(Ty::UniquePtr(Box::new(t)), false) } else { ffi_type(t, false) }
}

/// The foreign getter and, where the field has one, setter of field `f`.
#[verifier::opaque]
pub open spec fn field_ffi(class: Seq<char>, exposer: bool, f: FieldV) -> Option<Seq<char>> {
    let cxx = if exposer { class + "_Exposer"@ } else { class };
    let g = field_getter_type(f.ty, f.is_readonly);
    match g.0 {
        None => None,
        Some(gt) => {
            let getter = field_getter(class, cxx + "_get_"@ + f.name, class + "_get_"@ + f.name, gt, g.1);
            if field_has_setter(f) {
                match field_setter_type(f.ty) {
                    Some(a) => Some(getter + field_setter(class, cxx + "_set_"@ + f.name, class + "_set_"@ + f.name, a)),
                    None => None,
                }
            } else {
                Some(getter)
            }
        },
    }
}

impl FieldDef {
    pub fn get_ffi_get_name(&self, class_name: &str) -> (r: String)
        ensures
            r@ == class_name@ + "_get_"@ + self.name@,
    {
        cat3(class_name, "_get_", self.name.as_str())
    }

    pub fn get_ffi_set_name(&self, class_name: &str) -> (r: String)
        ensures
            r@ == class_name@ + "_set_"@ + self.name@,
    {
        cat3(class_name, "_set_", self.name.as_str())
    }

    pub fn get_wrapper_set_name(&self) -> (r: String)
        ensures
            r@ == "set_"@ + self.name@,
    {
        cat2("set_", self.name.as_str())
    }
}

fn field_getter_type_of(t: &TypeKind, readonly: bool) -> (r: (Option<String>, bool))
    ensures
        (opt_view(r.0), r.1) == field_getter_type(t@, readonly),
{
    proof {
        reveal_with_fuel(crate::types::ty_of, 2);
    }
    match t {
        TypeKind::Object(_) | TypeKind::Vector { .. } | TypeKind::Mapping { .. } => {
            if readonly {
                (TypeKind::new_const_ref(t.duplicate()).to_ffi_type(true), true)
            } else {
                (TypeKind::new_mut_ref(t.duplicate()).to_ffi_type(true), false)
            }
        },
        TypeKind::Option(inner) => {
            if inner.is_object_value() {
                if readonly {
                    (TypeKind::new_result(TypeKind::new_const_ref(inner.duplicate())).to_ffi_type(true), true)
                } else {
                    (TypeKind::new_result(TypeKind::new_mut_ref(inner.duplicate())).to_ffi_type(true), false)
                }
            } else {
                (TypeKind::new_result(inner.duplicate()).to_ffi_type(true), true)
            }
        },
        _ => (t.to_ffi_type(true), true),
    }
}

fn field_setter_type_of(t: &TypeKind) -> (r: Option<String>)
    ensures
        opt_view(r) == field_setter_type(t@),
{
    if let TypeKind::Object(_) = t {
        TypeKind::new_unique_ptr(t.duplicate()).to_ffi_type(false)
    } else {
        arg_form_of(t)
    }
}

pub fn generate_ffi_field(class: &ClassModel, field: &FieldDef) -> (r: Option<String>)
    ensures
        opt_view(r) == field_ffi(class.name@, class.needs_exposer, field@),
{
    proof {
        reveal(field_ffi);
    }
    let n = class.name.as_str();
    let cxx = if class.needs_exposer { cat2(n, "_Exposer") } else { String::from_str(n) };
    let cxx_get = cat3(cxx.as_str(), "_get_", field.name.as_str());
    let cxx_set = cat3(cxx.as_str(), "_set_", field.name.as_str());
    let rust_get = field.get_ffi_get_name(n);
    let rust_set = field.get_ffi_set_name(n);
    let (g, const_self) = field_getter_type_of(&field.ty, field.is_readonly);
    match g {
        None => None,
        Some(gt) => {
            let mut out = String::new();
            push_field_getter(&mut out, n, cxx_get.as_str(), rust_get.as_str(), gt.as_str(), const_self);
            if field.has_setter() {
                match field_setter_type_of(&field.ty) {
                    Some(a) => {
                        push_field_setter(&mut out, n, cxx_set.as_str(), rust_set.as_str(), a.as_str());
                        Some(out)
                    },
                    None => None,
                }
            } else {
                Some(out)
            }
        },
    }
}

fn push_field_getter(out: &mut String, class: &str, cxx_get: &str, rust_get: &str, ret: &str, const_self: bool)
    ensures
        final(out)@ == old(out)@ + field_getter(class@, cxx_get@, rust_get@, ret@, const_self),
{
    proof {
        reveal(field_getter);
    }
    let obj = if const_self { cat2("obj: &", class) } else { cat3("obj: Pin<&mut ", class, ">") };
    let r = cat2(" -> ", ret);
    push_decl(out, rust_get, cxx_get, obj.as_str(), r.as_str());
}

fn push_field_setter(out: &mut String, class: &str, cxx_set: &str, rust_set: &str, arg: &str)
    ensures
        final(out)@ == old(out)@ + field_setter(class@, cxx_set@, rust_set@, arg@),
{
    proof {
        reveal(field_setter);
    }
    let mut p = cat3("obj: Pin<&mut ", class, ">, val: ");
    p.append(arg);
    push_decl(out, rust_set, cxx_set, p.as_str(), "");
}

// ----------------------------------------------------------------- block

pub open spec fn fields_ffi(class: Seq<char>, exposer: bool, fs: Seq<FieldV>) -> Option<Seq<char>>
    decreases fs.len(),
{
    if fs.len() == 0 {
        Some(Seq::empty())
    } else {
        match (fields_ffi(class, exposer, fs.drop_last()), field_ffi(class, exposer, fs.last())) {
            (Some(a), Some(b)) => Some(a + b),
            _ => None,
        }
    }
}

pub open spec fn methods_ffi(class: Seq<char>, exposer: bool, ms: Seq<MethodV>) -> Option<Seq<char>>
    decreases ms.len(),
{
    if ms.len() == 0 {
        Some(Seq::empty())
    } else {
        match (methods_ffi(class, exposer, ms.drop_last()), method_ffi(class, exposer, ms.last())) {
            (Some(a), Some(b)) => Some(a + b),
            _ => None,
        }
    }
}

/// The foreign declarations of one class: its opaque type, then each field and method.
#[verifier::opaque]
pub open spec fn class_ffi(c: ClassV) -> Option<Seq<char>> {
    let head = if c.needs_exposer {
        "#[cxx_name = \""@ + c.name + "_Exposer\"]\ntype "@ + c.name + ";\n"@
    } else {
        "type "@ + c.name + ";\n"@
    };
    match (fields_ffi(c.name, c.needs_exposer, c.fields), methods_ffi(c.name, c.needs_exposer, c.methods)) {
        (Some(f), Some(m)) => Some(head + f + m),
        _ => None,
    }
}

proof fn lemma_fields_ffi_none(c: Seq<char>, e: bool, fs: Seq<FieldV>, k: int)
    requires
        0 <= k <= fs.len(),
        fields_ffi(c, e, fs.subrange(0, k)) is None,
    ensures
        fields_ffi(c, e, fs) is None,
    decreases fs.len() - k,
{
    if k < fs.len() {
        assert(fs.subrange(0, k + 1).drop_last() =~= fs.subrange(0, k));
        lemma_fields_ffi_none(c, e, fs, k + 1);
    } else {
        assert(fs.subrange(0, k) =~= fs);
    }
}

proof fn lemma_methods_ffi_none(c: Seq<char>, e: bool, ms: Seq<MethodV>, k: int)
    requires
        0 <= k <= ms.len(),
        methods_ffi(c, e, ms.subrange(0, k)) is None,
    ensures
        methods_ffi(c, e, ms) is None,
    decreases ms.len() - k,
{
    if k < ms.len() {
        assert(ms.subrange(0, k + 1).drop_last() =~= ms.subrange(0, k));
        lemma_methods_ffi_none(c, e, ms, k + 1);
    } else {
        assert(ms.subrange(0, k) =~= ms);
    }
}

pub fn generate_ffi_block(class: &ClassModel) -> (r: Option<String>)
    requires
        class_valid(class@),
    ensures
        opt_view(r) == class_ffi(class@),
{
    proof {
        reveal(class_ffi);
    }
    let n = class.name.as_str();
    let mut out = if class.needs_exposer {
        let mut h = cat3("#[cxx_name = \"", n, "_Exposer\"]\ntype ");
        h.append(n);
        h.append(";\n");
        h
    } else {
        cat3("type ", n, ";\n")
    };
    let ghost head = out@;
    let ghost cv = class@;
    let mut i: usize = 0;
    while i < class.fields.len()
        invariant
            0 <= i <= class.fields@.len(),
            cv == class@,
            n@ == cv.name,
            fields_ffi(cv.name, cv.needs_exposer, cv.fields.subrange(0, i as int)) is Some,
            out@ == head + fields_ffi(cv.name, cv.needs_exposer, cv.fields.subrange(0, i as int)).unwrap(),
        decreases class.fields@.len() - i,
    {
        let part = generate_ffi_field(class, &class.fields[i]);
        proof {
            let pre = cv.fields.subrange(0, i + 1);
            assert(pre.drop_last() =~= cv.fields.subrange(0, i as int));
            assert(pre.last() == class.fields@[i as int]@);
        }
        match part {
            Some(p) => out.append(p.as_str()),
            None => {
                proof {
                    reveal(class_ffi);
                    lemma_fields_ffi_none(cv.name, cv.needs_exposer, cv.fields, i + 1);
                }
                return None;
            },
        }
        i = i + 1;
    }
    assert(cv.fields.subrange(0, i as int) =~= cv.fields);
    let ghost mid = out@;
    let mut j: usize = 0;
    while j < class.methods.len()
        invariant
            0 <= j <= class.methods@.len(),
            cv == class@,
            class_valid(cv),
            methods_ffi(cv.name, cv.needs_exposer, cv.methods.subrange(0, j as int)) is Some,
            out@ == mid + methods_ffi(cv.name, cv.needs_exposer, cv.methods.subrange(0, j as int)).unwrap(),
        decreases class.methods@.len() - j,
    {
        assert(cv.methods[j as int] == class.methods@[j as int]@);
        let part = generate_ffi_method(class, &class.methods[j]);
        proof {
            let pre = cv.methods.subrange(0, j + 1);
            assert(pre.drop_last() =~= cv.methods.subrange(0, j as int));
            assert(pre.last() == class.methods@[j as int]@);
        }
        match part {
            Some(p) => out.append(p.as_str()),
            None => {
                proof {
                    reveal(class_ffi);
                    lemma_methods_ffi_none(cv.name, cv.needs_exposer, cv.methods, j + 1);
                }
                return None;
            },
        }
        j = j + 1;
    }
    assert(cv.methods.subrange(0, j as int) =~= cv.methods);
    Some(out)
}

// ------------------------------------------------------------ containers

/// The foreign declarations of every vector instantiation, in registry order.
pub fn generate_vec_ffi(vec_defs: &Vec<TypeKind>) -> (r: Option<String>)
    requires
        registry_list_ok(types_view(vec_defs@)),
    ensures
        opt_view(r) == crate::bridge::concat_all(types_view(vec_defs@), |t: Ty| vec_ffi(t)),
{
    let r = crate::bridge::emit_entries(vec_defs, crate::bridge::EntryText::VecDecls);
    assert(crate::bridge::entry_text(crate::bridge::EntryText::VecDecls) == |t: Ty| vec_ffi(t));
    r
}

/// The foreign declarations of every map instantiation, in registry order.
pub fn generate_map_ffi(map_defs: &Vec<TypeKind>) -> (r: Option<String>)
    requires
        registry_list_ok(types_view(map_defs@)),
        map_keys_ok(types_view(map_defs@)),
    ensures
        opt_view(r) == crate::bridge::concat_all(types_view(map_defs@), |t: Ty| map_ffi(t)),
{
    let r = crate::bridge::emit_entries(map_defs, crate::bridge::EntryText::MapDecls);
    assert(crate::bridge::entry_text(crate::bridge::EntryText::MapDecls) == |t: Ty| map_ffi(t));
    r
}

pub open spec fn vec_get_ret(e: Ty) -> Option<Seq<char>> {
    if e is Str {
        Some("Result<String>"@)
    } else if is_object_shape(e) {
        wrap_spec(ffi_name_only(e), "Result<&"@, ">"@)
    } else {
        wrap_spec(ffi_name_only(e), "Result<"@, ">"@)
    }
}

pub open spec fn vec_push_arg(e: Ty) -> Option<Seq<char>> {
    if e is Str { Some("&str"@) } else { ffi_type(e, false) }
}

/// The element accessors that differ by element kind: a setter for strings,
/// a mutable getter otherwise, and slice views for primitives.
#[verifier::opaque]
pub open spec fn vec_elem_ops(s: Seq<char>, e: Ty, t: Seq<char>) -> Seq<char> {
    (if e is Str {
        decl(s + "_set"@, s + "_set"@, "obj: Pin<&mut "@ + s + ">"@ + ", index: usize, val: &str"@, ""@)
    } else {
        decl(s + "_get_mut"@, s + "_get_mut"@, "obj: Pin<&mut "@ + s + ">"@ + ", index: usize"@,
            " -> Result<Pin<&mut "@ + t + ">>"@)
    }) + (if e is Primitive {
        decl(s + "_as_slice"@, s + "_as_slice"@, "obj: &"@ + s, " -> &["@ + t + "]"@)
            + decl(s + "_as_mut_slice"@, s + "_as_mut_slice"@, "obj: Pin<&mut "@ + s + ">"@,
            " -> &mut ["@ + t + "]"@)
    } else {
        Seq::empty()
    })
}

/// The foreign declarations of one vector instantiation.
#[verifier::opaque]
pub open spec fn vec_ffi(t: Ty) -> Option<Seq<char>> {
    match t {
        Ty::Vector(e, _) => {
            let s = flat_name(t);
            match (vec_get_ret(*e), vec_push_arg(*e), ffi_name_only(*e)) {
                (Some(g), Some(p), Some(n)) => Some("type "@ + s + ";\n"@
                    + decl("make_"@ + s + "_new"@, "make_"@ + s + "_new"@, ""@, " -> UniquePtr<"@ + s + ">"@)
                    + decl(s + "_len"@, s + "_len"@, "obj: &"@ + s, " -> usize"@)
                    + decl(s + "_get"@, s + "_get"@, "obj: &"@ + s + ", index: usize"@, " -> "@ + g)
                    + decl(s + "_push"@, s + "_push"@, "obj: Pin<&mut "@ + s + ">, val: "@ + p, ""@)
                    + vec_elem_ops(s, *e, n)),
                _ => None,
            }
        },
        _ => Some(Seq::empty()),
    }
}

fn push_decl_same(out: &mut String, name: &str, params: &str, ret: &str)
    ensures
        final(out)@ == old(out)@ + decl(name@, name@, params@, ret@),
{
    push_decl(out, name, name, params, ret);
}

fn vec_elem_ops_of(out: &mut String, s: &str, e: &TypeKind, t: &str)
    ensures
        final(out)@ == old(out)@ + vec_elem_ops(s@, e@, t@),
{
    proof {
        reveal(vec_elem_ops);
    }
    let pin = cat3("obj: Pin<&mut ", s, ">");
    if let TypeKind::String = e {
        let n = cat2(s, "_set");
        let p = cat2(pin.as_str(), ", index: usize, val: &str");
        push_decl_same(out, n.as_str(), p.as_str(), "");
    } else {
        let n = cat2(s, "_get_mut");
        let p = cat2(pin.as_str(), ", index: usize");
        let r = cat3(" -> Result<Pin<&mut ", t, ">>");
        push_decl_same(out, n.as_str(), p.as_str(), r.as_str());
    }
    if let TypeKind::Primitive(_) = e {
        let slice_fn = cat2(s, "_as_slice");
        let cref = cat2("obj: &", s);
        let slice_ret = cat3(" -> &[", t, "]");
        push_decl_same(out, slice_fn.as_str(), cref.as_str(), slice_ret.as_str());
        let mut_slice_fn = cat2(s, "_as_mut_slice");
        let mut_slice_ret = cat3(" -> &mut [", t, "]");
        push_decl_same(out, mut_slice_fn.as_str(), pin.as_str(), mut_slice_ret.as_str());
    } else {
        assert(out@ =~= out@ + Seq::<char>::empty());
    }
}

fn vec_get_ret_of(e: &TypeKind) -> (r: Option<String>)
    ensures
        opt_view(r) == vec_get_ret(e@),
{
    if let TypeKind::String = e {
        Some(String::from_str("Result<String>"))
    } else if e.is_object_value() {
        wrap(e.to_ffi_type_name_only(), "Result<&", ">")
    } else {
        wrap(e.to_ffi_type_name_only(), "Result<", ">")
    }
}

fn vec_push_arg_of(e: &TypeKind) -> (r: Option<String>)
    ensures
        opt_view(r) == vec_push_arg(e@),
{
    if let TypeKind::String = e {
        Some(String::from_str("&str"))
    } else {
        arg_form_of(e)
    }
}

pub fn generate_vec_ffi_entry(def: &TypeKind) -> (r: Option<String>)
    requires
        nameable(def@),
    ensures
        opt_view(r) == vec_ffi(def@),
{
    proof {
        reveal(vec_ffi);
    }
    match def {
        TypeKind::Vector { inner, .. } => {
            let s = def.get_flat_name();
            let sv = s.as_str();
            let (g, p, n) = match (vec_get_ret_of(inner), vec_push_arg_of(inner), inner.to_ffi_type_name_only()) {
                (Some(g), Some(p), Some(n)) => (g, p, n),
                _ => {
                    return None;
                },
            };
            let mut out = cat3("type ", sv, ";\n");
            let mk = cat3("make_", sv, "_new");
            let mk_ret = cat3(" -> UniquePtr<", sv, ">");
            push_decl_same(&mut out, mk.as_str(), "", mk_ret.as_str());
            let cref = cat2("obj: &", sv);
            let len = cat2(sv, "_len");
            push_decl_same(&mut out, len.as_str(), cref.as_str(), " -> usize");
            let get = cat2(sv, "_get");
            let get_p = cat2(cref.as_str(), ", index: usize");
            let get_r = cat2(" -> ", g.as_str());
            push_decl_same(&mut out, get.as_str(), get_p.as_str(), get_r.as_str());
            let push = cat2(sv, "_push");
            let mut push_p = cat3("obj: Pin<&mut ", sv, ">, val: ");
            push_p.append(p.as_str());
            push_decl_same(&mut out, push.as_str(), push_p.as_str(), "");
            vec_elem_ops_of(&mut out, sv, inner, n.as_str());
            Some(out)
        },
        _ => Some(String::new()),
    }
}

pub open spec fn map_key_arg(k: Ty) -> Option<Seq<char>> {
    if k is Str {
        Some("&str"@)
    } else if k is Primitive {
        ffi_name_only(k)
    } else {
        None
    }
}

pub open spec fn map_val_ret(v: Ty) -> Option<Seq<char>> {
    if v is Str {
        Some("String"@)
    } else if is_object_shape(v) {
        wrap_spec(ffi_name_only(v), "Pin<&'a mut "@, ">"@)
    } else {
        ffi_name_only(v)
    }
}

pub open spec fn map_key_iter_ret(k: Ty) -> Option<Seq<char>> {
    if k is Str { Some("String"@) } else { ffi_name_only(k) }
}

pub open spec fn map_val_iter_ret(v: Ty) -> Option<Seq<char>> {
    if v is Str {
        Some("String"@)
    } else if is_object_shape(v) {
        wrap_spec(ffi_name_only(v), "Pin<&mut "@, ">"@)
    } else {
        ffi_name_only(v)
    }
}

/// The iteration protocol of a map instantiation named `s`.
#[verifier::opaque]
pub open spec fn map_iter_decls(s: Seq<char>, kr: Seq<char>, vr: Seq<char>) -> Seq<char> {
    let ctx = s + "_IterCtx"@;
    let c = "ctx: Pin<&mut "@ + ctx + ">"@;
    "type "@ + ctx + ";\n"@
        + decl(s + "_iter_new"@, s + "_iter_new"@, "obj: Pin<&mut "@ + s + ">"@, " -> UniquePtr<"@ + ctx + ">"@)
        + decl(s + "_iter_key"@, s + "_iter_key"@, c, " -> "@ + kr)
        + decl(s + "_iter_val"@, s + "_iter_val"@, c, " -> "@ + vr)
        + decl(s + "_iter_step"@, s + "_iter_step"@, c, ""@)
        + decl(s + "_iter_is_end"@, s + "_iter_is_end"@, c, " -> bool"@)
}

/// The keyed getter of a map instantiation named `s`; a getter that hands
/// out borrowed objects ties them to the map's lifetime.
#[verifier::opaque]
pub open spec fn map_get_decl(s: Seq<char>, borrowed: bool, ka: Seq<char>, vr: Seq<char>) -> Seq<char> {
    let lifetime = if borrowed { "<'a>"@ } else { ""@ };
    let self_arg = if borrowed {
        "obj: Pin<&'a mut "@ + s + ">"@
    } else {
        "obj: Pin<&mut "@ + s + ">"@
    };
    decl(s + "_get"@, s + "_get"@ + lifetime, self_arg + ", key: "@ + ka, " -> Result<"@ + vr + ">"@)
}

fn map_get_decl_of(out: &mut String, s: &str, borrowed: bool, ka: &str, vr: &str)
    ensures
        final(out)@ == old(out)@ + map_get_decl(s@, borrowed, ka@, vr@),
{
    proof {
        reveal(map_get_decl);
    }
    let get = cat2(s, "_get");
    let get_cpp = if borrowed { cat2(get.as_str(), "<'a>") } else { cat2(get.as_str(), "") };
    let mut get_p = if borrowed {
        cat3("obj: Pin<&'a mut ", s, ">")
    } else {
        cat3("obj: Pin<&mut ", s, ">")
    };
    get_p.append(", key: ");
    get_p.append(ka);
    let get_r = cat3(" -> Result<", vr, ">");
    push_decl(out, get.as_str(), get_cpp.as_str(), get_p.as_str(), get_r.as_str());
}

/// The foreign declarations of one map instantiation.
#[verifier::opaque]
pub open spec fn map_ffi(t: Ty) -> Option<Seq<char>> {
    match t {
        Ty::Mapping(k, v, _) => {
            let s = flat_name(t);
            match (map_key_arg(*k), map_val_ret(*v), map_key_iter_ret(*k), map_val_iter_ret(*v)) {
                (Some(ka), Some(vr), Some(kir), Some(vir)) => Some("type "@ + s + ";\n"@
                    + decl("make_"@ + s + "_new"@, "make_"@ + s + "_new"@, ""@, " -> UniquePtr<"@ + s + ">"@)
                    + decl(s + "_len"@, s + "_len"@, "obj: &"@ + s, " -> usize"@)
                    + map_get_decl(s, is_object_shape(*v), ka, vr)
                    + map_iter_decls(s, kir, vir)),
                _ => None,
            }
        },
        _ => Some(Seq::empty()),
    }
}

fn map_iter_decls_of(out: &mut String, s: &str, kr: &str, vr: &str)
    ensures
        final(out)@ == old(out)@ + map_iter_decls(s@, kr@, vr@),
{
    proof {
        reveal(map_iter_decls);
    }
    let ctx = cat2(s, "_IterCtx");
    let c = cat3("ctx: Pin<&mut ", ctx.as_str(), ">");
    out.append("type ");
    out.append(ctx.as_str());
    out.append(";\n");
    let new_fn = cat2(s, "_iter_new");
    let map_pin = cat3("obj: Pin<&mut ", s, ">");
    let new_ret = cat3(" -> UniquePtr<", ctx.as_str(), ">");
    push_decl_same(out, new_fn.as_str(), map_pin.as_str(), new_ret.as_str());
    let key_fn = cat2(s, "_iter_key");
    let key_ret = cat2(" -> ", kr);
    push_decl_same(out, key_fn.as_str(), c.as_str(), key_ret.as_str());
    let val_fn = cat2(s, "_iter_val");
    let val_ret = cat2(" -> ", vr);
    push_decl_same(out, val_fn.as_str(), c.as_str(), val_ret.as_str());
    let step_fn = cat2(s, "_iter_step");
    push_decl_same(out, step_fn.as_str(), c.as_str(), "");
    let end_fn = cat2(s, "_iter_is_end");
    push_decl_same(out, end_fn.as_str(), c.as_str(), " -> bool");
}

fn map_key_arg_of(k: &TypeKind) -> (r: Option<String>)
    ensures
        opt_view(r) == map_key_arg(k@),
{
    match k {
        TypeKind::String => Some(String::from_str("&str")),
        TypeKind::Primitive(_) => k.to_ffi_type_name_only(),
        _ => None,
    }
}

fn map_val_ret_of(v: &TypeKind) -> (r: Option<String>)
    ensures
        opt_view(r) == map_val_ret(v@),
{
    if let TypeKind::String = v {
        Some(String::from_str("String"))
    } else if v.is_object_value() {
        wrap(v.to_ffi_type_name_only(), "Pin<&'a mut ", ">")
    } else {
        v.to_ffi_type_name_only()
    }
}

fn map_key_iter_ret_of(k: &TypeKind) -> (r: Option<String>)
    ensures
        opt_view(r) == map_key_iter_ret(k@),
{
    if let TypeKind::String = k {
        Some(String::from_str("String"))
    } else {
        k.to_ffi_type_name_only()
    }
}

fn map_val_iter_ret_of(v: &TypeKind) -> (r: Option<String>)
    ensures
        opt_view(r) == map_val_iter_ret(v@),
{
    if let TypeKind::String = v {
        Some(String::from_str("String"))
    } else if v.is_object_value() {
        wrap(v.to_ffi_type_name_only(), "Pin<&mut ", ">")
    } else {
        v.to_ffi_type_name_only()
    }
}

pub fn generate_map_ffi_entry(def: &TypeKind) -> (r: Option<String>)
    requires
        nameable(def@),
        map_key_ok(def@),
    ensures
        opt_view(r) == map_ffi(def@),
{
    proof {
        reveal(map_ffi);
    }
    match def {
        TypeKind::Mapping { key, value, .. } => {
            let s = def.get_flat_name();
            let sv = s.as_str();
            let (ka, vr, kir, vir) = match (
                map_key_arg_of(key),
                map_val_ret_of(value),
                map_key_iter_ret_of(key),
                map_val_iter_ret_of(value),
            ) {
                (Some(a), Some(b), Some(c), Some(d)) => (a, b, c, d),
                _ => {
                    return None;
                },
            };
            let borrowed = value.is_object_value();
            let mut out = cat3("type ", sv, ";\n");
            let mk = cat3("make_", sv, "_new");
            let mk_ret = cat3(" -> UniquePtr<", sv, ">");
            push_decl_same(&mut out, mk.as_str(), "", mk_ret.as_str());
            let len = cat2(sv, "_len");
            let cref = cat2("obj: &", sv);
            push_decl_same(&mut out, len.as_str(), cref.as_str(), " -> usize");
            map_get_decl_of(&mut out, sv, borrowed, ka.as_str(), vr.as_str());
            map_iter_decls_of(&mut out, sv, kir.as_str(), vir.as_str());
            Some(out)
        },
        _ => Some(String::new()),
    }
}

} // verus!
