use vstd::prelude::*;
use crate::text::{cat2, cat3, lemma_text_assoc, opt_view};
use crate::types::{
    arg_conversion, handle_from, ret_conversion, rust_tag, wrapper_arg_type, wrapper_ret_type, Ty,
    TypeKind,
};
use crate::model::{
    args_view, field_has_setter, field_kind_of, ArgV, Arg, ClassModel, ClassV, FieldDef, FieldKind,
    FieldV, IterNames, MethodDef, MethodKind, MethodV,
};

verus! {

broadcast use lemma_text_assoc;

pub open spec fn prep_ptr() -> Seq<char> {
    "let ptr = S::as_ptr(&self.inner); "@
}

pub open spec fn pin_self() -> Seq<char> {
    "let pin_self = std::pin::Pin::new_unchecked(&mut *ptr); "@
}

/// A handle type over `tag` with the given lifetime, mode and storage.
#[verifier::opaque]
pub open spec fn handle_type(lt: Seq<char>, tag: Seq<char>, mode: Seq<char>, storage: Seq<char>) -> Seq<char> {
    "CppObject<"@ + lt + ", "@ + tag + ", "@ + mode + ", "@ + storage + ">"@
}

/// Appends `CppObject<lt, tag, mode, storage>`.
fn push_handle_type(out: &mut String, lt: &str, tag: &str, mode: &str, storage: &str)
    ensures
        final(out)@ == old(out)@ + handle_type(lt@, tag@, mode@, storage@),
{
    proof {
        reveal(handle_type);
    }
    out.append("CppObject<");
    out.append(lt);
    out.append(", ");
    out.append(tag);
    out.append(", ");
    out.append(mode);
    out.append(", ");
    out.append(storage);
    out.append(">");
}

// ---------------------------------------------------------------- fields

/// The getter of an object, vector or map field: a borrowed handle, const
/// where the field is readonly, of the receiver's mode otherwise.
#[verifier::opaque]
pub open spec fn obj_getter(f: Seq<char>, get: Seq<char>, tag: Seq<char>, readonly: bool) -> Seq<char> {
    if readonly {
        "pub fn "@ + f + "(&self) -> "@ + handle_type("'_"@, tag, "justcxx::Const"@, "justcxx::Ref"@)
            + " { unsafe { "@ + prep_ptr() + "let ret_ref = ffi::"@ + get
            + "(&*ptr); let ret_ptr = (ret_ref as *const _) as *mut _; "@ + handle_from("ret_ptr"@)
            + " } }\n"@
    } else {
        "pub fn "@ + f + "(&self) -> "@ + handle_type("'_"@, tag, "M"@, "justcxx::Ref"@)
            + " { unsafe { "@ + prep_ptr() + pin_self() + "let ret_pin = ffi::"@ + get
            + "(pin_self); let ret_ptr = ret_pin.get_unchecked_mut() as *mut _; "@
            + handle_from("ret_ptr"@) + " } }\n"@
    }
}

/// The getter of an optional object field: an absent handle where the native side signals none.
#[verifier::opaque]
pub open spec fn opt_obj_getter(f: Seq<char>, get: Seq<char>, tag: Seq<char>, readonly: bool) -> Seq<char> {
    if readonly {
        "pub fn "@ + f + "(&self) -> Option<"@ + handle_type("'_"@, tag, "justcxx::Const"@, "justcxx::Ref"@)
            + "> { unsafe { "@ + prep_ptr() + "match ffi::"@ + get
            + "(&*ptr) { Ok(ret_ref) => { let ret_ptr = (ret_ref as *const _) as *mut _; Some("@
            + handle_from("ret_ptr"@) + ") }, Err(_) => None } } }\n"@
    } else {
        "pub fn "@ + f + "(&self) -> Option<"@ + handle_type("'_"@, tag, "M"@, "justcxx::Ref"@)
            + "> { unsafe { "@ + prep_ptr() + pin_self() + "match ffi::"@ + get
            + "(pin_self) { Ok(ret_pin) => { let ret_ptr = ret_pin.get_unchecked_mut() as *mut _; Some("@
            + handle_from("ret_ptr"@) + ") }, Err(_) => None } } }\n"@
    }
}

/// The getter of field `f` on the handle of any mode and storage.
pub open spec fn field_getter_wrapper(class: Seq<char>, f: FieldV) -> Option<Seq<char>> {
    let get = class + "_get_"@ + f.name;
    match field_kind_of(f.ty) {
        FieldKind::Val => match wrapper_ret_type(f.ty, "'_"@) {
            Some(r) => Some("pub fn "@ + f.name + "(&self) -> "@ + r + " { unsafe { "@ + prep_ptr()
                + "ffi::"@ + get + "(&*ptr) } }\n"@),
            None => None,
        },
        FieldKind::Obj | FieldKind::Vector | FieldKind::Mapping => match rust_tag(f.ty) {
            Some(tag) => Some(obj_getter(f.name, get, tag, f.is_readonly)),
            None => None,
        },
        FieldKind::OptVal => match f.ty {
            Ty::Optional(inner) => match wrapper_ret_type(*inner, "'_"@) {
                Some(r) => Some("pub fn "@ + f.name + "(&self) -> Option<"@ + r + "> { unsafe { "@
                    + prep_ptr() + "match ffi::"@ + get
                    + "(&*ptr) { Ok(ret) => Some(ret), Err(_) => None } } }\n"@),
                None => None,
            },
            _ => None,
        },
        FieldKind::OptObj => match f.ty {
            Ty::Optional(inner) => match rust_tag(*inner) {
                Some(tag) => Some(opt_obj_getter(f.name, get, tag, f.is_readonly)),
                None => None,
            },
            _ => None,
        },
    }
}

/// The setter of field `f` on the mutable handle.
pub open spec fn field_setter_wrapper(class: Seq<char>, f: FieldV) -> Option<Seq<char>> {
    let set = class + "_set_"@ + f.name;
    if field_kind_of(f.ty) is Obj {
        match rust_tag(f.ty) {
            Some(tag) => Some("pub fn set_"@ + f.name + "(&mut self, "@ + "val: "@
                + handle_type("'static"@, tag, "justcxx::Mut"@, "justcxx::Owned"@) + ") { unsafe { "@
                + prep_ptr() + pin_self() + "ffi::"@ + set + "(pin_self, val.inner) } }\n"@),
            None => None,
        }
    } else {
        match wrapper_arg_type(f.ty) {
            Some(a) => Some("pub fn set_"@ + f.name + "(&mut self, "@ + "value: "@ + a + ") { unsafe { "@
                + prep_ptr() + pin_self() + "ffi::"@ + set + "(pin_self, value) } }\n"@),
            None => None,
        }
    }
}

/// The accessors of field `f`: its getter for every handle, and its setter
/// for mutable handles only where the field has one.
pub open spec fn field_wrapper(class: Seq<char>, f: FieldV) -> Option<(Seq<char>, Seq<char>)> {
    match field_getter_wrapper(class, f) {
        None => None,
        Some(g) => if field_has_setter(f) {
            match field_setter_wrapper(class, f) {
                Some(s) => Some((g, s)),
                None => None,
            }
        } else {
            Some((g, Seq::empty()))
        },
    }
}

fn push_obj_getter(out: &mut String, f: &str, get: &str, tag: &str, readonly: bool)
    ensures
        final(out)@ == old(out)@ + obj_getter(f@, get@, tag@, readonly),
{
    proof {
        reveal(obj_getter);
    }
    out.append("pub fn ");
    out.append(f);
    out.append("(&self) -> ");
    if readonly {
        push_handle_type(out, "'_", tag, "justcxx::Const", "justcxx::Ref");
        out.append(" { unsafe { ");
        out.append("let ptr = S::as_ptr(&self.inner); ");
        out.append("let ret_ref = ffi::");
        out.append(get);
        out.append("(&*ptr); let ret_ptr = (ret_ref as *const _) as *mut _; ");
    } else {
        push_handle_type(out, "'_", tag, "M", "justcxx::Ref");
        out.append(" { unsafe { ");
        out.append("let ptr = S::as_ptr(&self.inner); ");
        out.append("let pin_self = std::pin::Pin::new_unchecked(&mut *ptr); ");
        out.append("let ret_pin = ffi::");
        out.append(get);
        out.append("(pin_self); let ret_ptr = ret_pin.get_unchecked_mut() as *mut _; ");
    }
    out.append("CppObject { inner: ");
    out.append("ret_ptr");
    out.append(", _marker: std::marker::PhantomData }");
    out.append(" } }\n");
}

fn push_opt_obj_getter(out: &mut String, f: &str, get: &str, tag: &str, readonly: bool)
    ensures
        final(out)@ == old(out)@ + opt_obj_getter(f@, get@, tag@, readonly),
{
    proof {
        reveal(opt_obj_getter);
    }
    out.append("pub fn ");
    out.append(f);
    out.append("(&self) -> Option<");
    if readonly {
        push_handle_type(out, "'_", tag, "justcxx::Const", "justcxx::Ref");
        out.append("> { unsafe { ");
        out.append("let ptr = S::as_ptr(&self.inner); ");
        out.append("match ffi::");
        out.append(get);
        out.append("(&*ptr) { Ok(ret_ref) => { let ret_ptr = (ret_ref as *const _) as *mut _; Some(");
    } else {
        push_handle_type(out, "'_", tag, "M", "justcxx::Ref");
        out.append("> { unsafe { ");
        out.append("let ptr = S::as_ptr(&self.inner); ");
        out.append("let pin_self = std::pin::Pin::new_unchecked(&mut *ptr); ");
        out.append("match ffi::");
        out.append(get);
        out.append("(pin_self) { Ok(ret_pin) => { let ret_ptr = ret_pin.get_unchecked_mut() as *mut _; Some(");
    }
    out.append("CppObject { inner: ");
    out.append("ret_ptr");
    out.append(", _marker: std::marker::PhantomData }");
    out.append(") }, Err(_) => None } } }\n");
}

fn field_getter_of(class: &str, field: &FieldDef) -> (r: Option<String>)
    ensures
        opt_view(r) == field_getter_wrapper(class@, field@),
{
    proof {
        reveal_with_fuel(crate::types::ty_of, 2);
    }
    let f = field.name.as_str();
    let get = cat3(class, "_get_", f);
    let mut out = String::new();
    match field.kind() {
        FieldKind::Val => {
            let r = match field.ty.to_rust_wrapper_ret_type(Some("'_")) {
                Some(r) => r,
                None => {
                    return None;
                },
            };
            out.append("pub fn ");
            out.append(f);
            out.append("(&self) -> ");
            out.append(r.as_str());
            out.append(" { unsafe { ");
            out.append("let ptr = S::as_ptr(&self.inner); ");
            out.append("ffi::");
            out.append(get.as_str());
            out.append("(&*ptr) } }\n");
        },
        FieldKind::Obj | FieldKind::Vector | FieldKind::Mapping => {
            match field.ty.to_rust_tag() {
                Some(tag) => push_obj_getter(&mut out, f, get.as_str(), tag.as_str(), field.is_readonly),
                None => {
                    return None;
                },
            }
        },
        FieldKind::OptVal => {
            if let TypeKind::Option(inner) = &field.ty {
                let r = match inner.to_rust_wrapper_ret_type(Some("'_")) {
                    Some(r) => r,
                    None => {
                        return None;
                    },
                };
                out.append("pub fn ");
                out.append(f);
                out.append("(&self) -> Option<");
                out.append(r.as_str());
                out.append("> { unsafe { ");
                out.append("let ptr = S::as_ptr(&self.inner); ");
                out.append("match ffi::");
                out.append(get.as_str());
                out.append("(&*ptr) { Ok(ret) => Some(ret), Err(_) => None } } }\n");
            } else {
                return None;
            }
        },
        FieldKind::OptObj => {
            if let TypeKind::Option(inner) = &field.ty {
                match inner.to_rust_tag() {
                    Some(tag) => push_opt_obj_getter(&mut out, f, get.as_str(), tag.as_str(), field.is_readonly),
                    None => {
                        return None;
                    },
                }
            } else {
                return None;
            }
        },
    }
    Some(out)
}

fn field_setter_of(class: &str, field: &FieldDef) -> (r: Option<String>)
    ensures
        opt_view(r) == field_setter_wrapper(class@, field@),
{
    let f = field.name.as_str();
    let set = cat3(class, "_set_", f);
    let mut out = cat3("pub fn set_", f, "(&mut self, ");
    if field.kind() == FieldKind::Obj {
        match field.ty.to_rust_tag() {
            Some(tag) => {
                out.append("val: ");
                push_handle_type(&mut out, "'static", tag.as_str(), "justcxx::Mut", "justcxx::Owned");
                out.append(") { unsafe { ");
                out.append("let ptr = S::as_ptr(&self.inner); ");
                out.append("let pin_self = std::pin::Pin::new_unchecked(&mut *ptr); ");
                out.append("ffi::");
                out.append(set.as_str());
                out.append("(pin_self, val.inner) } }\n");
                Some(out)
            },
            None => None,
        }
    } else {
        match field.ty.to_rust_wrapper_arg_type() {
            Some(a) => {
                out.append("value: ");
                out.append(a.as_str());
                out.append(") { unsafe { ");
                out.append("let ptr = S::as_ptr(&self.inner); ");
                out.append("let pin_self = std::pin::Pin::new_unchecked(&mut *ptr); ");
                out.append("ffi::");
                out.append(set.as_str());
                out.append("(pin_self, value) } }\n");
                Some(out)
            },
            None => None,
        }
    }
}

/// The getter and setter texts of `field` of the class named `class`.
pub fn generate_wrapper_field(class: &str, field: &FieldDef) -> (r: Option<(String, String)>)
    ensures
        match (r, field_wrapper(class@, field@)) {
            (Some((g, s)), Some((g2, s2))) => g@ == g2 && s@ == s2,
            (None, None) => true,
            _ => false,
        },
{
    let g = match field_getter_of(class, field) {
        Some(g) => g,
        None => {
            return None;
        },
    };
    if field.has_setter() {
        match field_setter_of(class, field) {
            Some(s) => Some((g, s)),
            None => None,
        }
    } else {
        Some((g, String::new()))
    }
}

// --------------------------------------------------------------- methods

/// The wrapper parameter list: `name: Type` joined by `, `.
pub open spec fn wrapper_params(a: Seq<ArgV>) -> Option<Seq<char>>
    decreases a.len(),
{
    if a.len() == 0 {
        Some(Seq::empty())
    } else {
        match (wrapper_params(a.drop_last()), wrapper_arg_type(a.last().ty)) {
            (Some(p), Some(t)) => Some(
                if a.len() == 1 { p } else { p + ", "@ } + a.last().name + ": "@ + t,
            ),
            _ => None,
        }
    }
}

/// The foreign call's argument list: each wrapper argument converted.
pub open spec fn call_args(a: Seq<ArgV>) -> Seq<char>
    decreases a.len(),
{
    if a.len() == 0 {
        Seq::empty()
    } else {
        let head = if a.len() == 1 { call_args(a.drop_last()) } else { call_args(a.drop_last()) + ", "@ };
        head + arg_conversion(a.last().ty, a.last().name)
    }
}

proof fn lemma_wrapper_params_none(a: Seq<ArgV>, k: int)
    requires
        0 <= k <= a.len(),
        wrapper_params(a.subrange(0, k)) is None,
    ensures
        wrapper_params(a) is None,
    decreases a.len() - k,
{
    if k < a.len() {
        assert(a.subrange(0, k + 1).drop_last() =~= a.subrange(0, k));
        lemma_wrapper_params_none(a, k + 1);
    } else {
        assert(a.subrange(0, k) =~= a);
    }
}

/// The wrapper parameter list and the foreign call's argument list of `args`.
pub fn process_method_args(args: &Vec<Arg>) -> (r: Option<(String, String)>)
    ensures
        match r {
            Some((d, c)) => wrapper_params(args_view(args@)) == Some(d@) && c@ == call_args(args_view(args@)),
            None => wrapper_params(args_view(args@)) is None,
        },
{
    let ghost av = args_view(args@);
    let mut decl = String::new();
    let mut call = String::new();
    let mut i: usize = 0;
    while i < args.len()
        invariant
            0 <= i <= args@.len(),
            av == args_view(args@),
            wrapper_params(av.subrange(0, i as int)) == Some(decl@),
            call@ == call_args(av.subrange(0, i as int)),
        decreases args@.len() - i,
    {
        let t = args[i].ty.to_rust_wrapper_arg_type();
        let conv = args[i].ty.gen_arg_conversion(args[i].name.as_str());
        proof {
            let pre = av.subrange(0, i + 1);
            assert(pre.drop_last() =~= av.subrange(0, i as int));
            assert(pre.last() == args@[i as int]@);
        }
        match t {
            Some(t) => {
                if i > 0 {
                    decl.append(", ");
                    call.append(", ");
                }
                decl.append(args[i].name.as_str());
                decl.append(": ");
                decl.append(t.as_str());
                call.append(conv.as_str());
            },
            None => {
                proof {
                    lemma_wrapper_params_none(av, i + 1);
                }
                return None;
            },
        }
        i = i + 1;
    }
    assert(av.subrange(0, i as int) =~= av);
    Some((decl, call))
}

/// The result clause of a wrapper method.
pub open spec fn ret_sig(r: Option<Ty>) -> Option<Seq<char>> {
    match r {
        None => Some(Seq::empty()),
        Some(t) => match wrapper_ret_type(t, "'_"@) {
            Some(s) => Some(" -> "@ + s),
            None => None,
        },
    }
}

/// The body that makes the foreign call `call` and converts its result.
pub open spec fn ret_body(r: Option<Ty>, call: Seq<char>) -> Seq<char> {
    match r {
        None => call + ";"@,
        Some(t) => ret_conversion(t, call),
    }
}

pub open spec fn join_params(a: Seq<char>, b: Seq<char>) -> Seq<char> {
    crate::ffi::join_params(a, b)
}

/// The texts a method contributes: to the impl for every handle, to the impl
/// for mutable handles, to the impl on the class itself, and beside them.
pub struct Parts {
    pub common: Seq<char>,
    pub muts: Seq<char>,
    pub statics: Seq<char>,
    pub aux: Seq<char>,
}

pub open spec fn owned_handle(tag: Seq<char>) -> Seq<char> {
    handle_type("'static"@, tag, "justcxx::Mut"@, "justcxx::Owned"@)
}

/// The wrapper of method `m` of the class named `c`.
#[verifier::opaque]
pub open spec fn method_wrapper(c: Seq<char>, m: MethodV) -> Option<Parts> {
    match m {
        MethodV::Ctor { rust_name, args, .. } => {
            let ffi_name = "make_"@ + c + "_"@ + rust_name;
            match wrapper_params(args) {
                Some(p) => Some(Parts {
                    common: Seq::empty(),
                    muts: Seq::empty(),
                    statics: "pub fn "@ + rust_name + "("@ + p + ") -> "@ + owned_handle(c)
                        + " { unsafe { let unique_ptr = ffi::"@ + ffi_name + "("@ + call_args(args) + "); "@
                        + handle_from("unique_ptr"@) + " } }\n"@,
                    aux: Seq::empty(),
                }),
                None => None,
            }
        },
        MethodV::Method { rust_name, args, ret_ty, kind, .. } => {
            let ffi_name = c + "_method_"@ + rust_name;
            let ca = call_args(args);
            match (wrapper_params(args), ret_sig(ret_ty)) {
                (Some(p), Some(sig)) => {
                    let t = method_text(c, rust_name, p, ca, ret_ty, sig, kind);
                    Some(Parts {
                        common: if kind is Const { t } else { Seq::empty() },
                        muts: if kind is Mutable { t } else { Seq::empty() },
                        statics: if kind is Static { t } else { Seq::empty() },
                        aux: Seq::empty(),
                    })
                },
                _ => None,
            }
        },
        MethodV::Iter { rust_name, yield_ty, is_iter_mut, is_owned, is_item_mut, .. } => match rust_tag(yield_ty) {
            Some(tag) => Some(Parts {
                common: iter_method(c, rust_name, iter_item(tag, "'_"@, is_owned, is_item_mut), is_iter_mut),
                muts: Seq::empty(),
                statics: Seq::empty(),
                aux: iter_struct(c, rust_name, iter_item(tag, "'a"@, is_owned, is_item_mut)),
            }),
            None => None,
        },
    }
}

/// The wrapper method that forwards to foreign method `rust_name` of class
/// `c`, with wrapper parameters `p`, call arguments `ca` and result clause `sig`.
#[verifier::opaque]
pub open spec fn method_text(
    c: Seq<char>,
    rust_name: Seq<char>,
    p: Seq<char>,
    ca: Seq<char>,
    ret_ty: Option<Ty>,
    sig: Seq<char>,
    kind: MethodKind,
) -> Seq<char> {
    let ffi_name = c + "_method_"@ + rust_name;
    "pub fn "@ + rust_name + "("@ + match kind {
        MethodKind::Static => p + ")"@ + sig + " { unsafe { "@
            + ret_body(ret_ty, "ffi::"@ + ffi_name + "("@ + ca + ")"@),
        MethodKind::Const => join_params("&self"@, p) + ")"@ + sig + " { unsafe { "@ + prep_ptr()
            + ret_body(ret_ty, "ffi::"@ + ffi_name + "("@ + join_params("&*ptr"@, ca) + ")"@),
        MethodKind::Mutable => join_params("&mut self"@, p) + ")"@ + sig + " { unsafe { "@ + prep_ptr()
            + pin_self() + ret_body(ret_ty, "ffi::"@ + ffi_name + "("@ + join_params("pin_self"@, ca) + ")"@),
    } + " } }\n"@
}

/// The single-use sequence type over the native iteration context of
/// iterator `m` of class `c`: each step reads one item, as a handle of type
/// `item` (owning or borrowed), or ends.
#[verifier::opaque]
pub open spec fn iter_struct(c: Seq<char>, m: Seq<char>, item: Seq<char>) -> Seq<char> {
    let sn = c + "_"@ + m + "_Iter"@;
    "#[allow(non_camel_case_types)]\npub struct "@ + sn
        + "<'a, M: justcxx::Mode> { ctx: cxx::UniquePtr<ffi::"@ + c + "_"@ + m + "_IterCtx"@
        + ">, _marker: std::marker::PhantomData<(&'a (), M)>, }\n"@
        + "impl<'a, M: justcxx::Mode> Iterator for "@ + sn + "<'a, M> { type Item = "@ + item
        + "; fn next(&mut self) -> Option<Self::Item> { unsafe { let ret_ptr = ffi::"@
        + c + "_"@ + m + "_iter_next"@
        + "(self.ctx.pin_mut()); if ret_ptr.is_null() { None } else { Some("@
        + handle_from("ret_ptr"@) + ") } } } }\n"@
}

/// The item type of an iterator over `tag`: an owning handle where items
/// are owned, otherwise a handle borrowed for `lt`, mutable only for `&mut T` items.
pub open spec fn iter_item(tag: Seq<char>, lt: Seq<char>, is_owned: bool, is_item_mut: bool) -> Seq<char> {
    if is_owned {
        owned_handle(tag)
    } else {
        handle_type(lt, tag, if is_item_mut { "justcxx::Mut"@ } else { "justcxx::Const"@ }, "justcxx::Ref"@)
    }
}

fn iter_item_of(tag: &str, lt: &str, is_owned: bool, is_item_mut: bool) -> (r: String)
    ensures
        r@ == iter_item(tag@, lt@, is_owned, is_item_mut),
{
    let mut out = String::new();
    let ghost e = out@;
    let mode: &str = if is_item_mut { "justcxx::Mut" } else { "justcxx::Const" };
    if is_owned {
        push_handle_type(&mut out, "'static", tag, "justcxx::Mut", "justcxx::Owned");
        assert(out@ =~= e + owned_handle(tag@));
    } else {
        push_handle_type(&mut out, lt, tag, mode, "justcxx::Ref");
        assert(out@ =~= e + handle_type(lt@, tag@, mode@, "justcxx::Ref"@));
    }
    assert(e + iter_item(tag@, lt@, is_owned, is_item_mut) =~= iter_item(tag@, lt@, is_owned, is_item_mut));
    out
}

/// The method that opens a fresh iteration over the receiver.
#[verifier::opaque]
pub open spec fn iter_method(c: Seq<char>, m: Seq<char>, item: Seq<char>, is_mut: bool) -> Seq<char> {
    "pub fn "@ + m + "("@ + (if is_mut { "&mut self"@ } else { "&self"@ })
        + ") -> impl Iterator<Item = "@ + item + "> + '_ { unsafe { "@ + prep_ptr()
        + pin_self() + "let ctx = ffi::"@ + c + "_"@ + m + "_iter_new"@ + "(pin_self); "@
        + c + "_"@ + m + "_Iter"@ + "::<'_, M> { ctx, _marker: std::marker::PhantomData } } }\n"@
}

pub fn generate_iter_aux_struct(names: &IterNames, class: &str, method: &str, item: &str) -> (r: String)
    requires
        names.struct_name@ == class@ + "_"@ + method@ + "_Iter"@,
        names.ctx_name@ == class@ + "_"@ + method@ + "_IterCtx"@,
        names.next_fn@ == class@ + "_"@ + method@ + "_iter_next"@,
    ensures
        r@ == iter_struct(class@, method@, item@),
{
    proof {
        reveal(iter_struct);
    }
    let mut out = String::from_str("#[allow(non_camel_case_types)]\npub struct ");
    out.append(names.struct_name.as_str());
    out.append("<'a, M: justcxx::Mode> { ctx: cxx::UniquePtr<ffi::");
    out.append(names.ctx_name.as_str());
    out.append(">, _marker: std::marker::PhantomData<(&'a (), M)>, }\n");
    out.append("impl<'a, M: justcxx::Mode> Iterator for ");
    out.append(names.struct_name.as_str());
    out.append("<'a, M> { type Item = ");
    out.append(item);
    out.append("; fn next(&mut self) -> Option<Self::Item> { unsafe { let ret_ptr = ffi::");
    out.append(names.next_fn.as_str());
    out.append("(self.ctx.pin_mut()); if ret_ptr.is_null() { None } else { Some(");
    out.append("CppObject { inner: ");
    out.append("ret_ptr");
    out.append(", _marker: std::marker::PhantomData }");
    out.append(") } } } }\n");
    out
}

pub fn generate_iter_wrapper_method(names: &IterNames, class: &str, method: &str, item: &str, is_iter_mut: bool) -> (r: String)
    requires
        names.struct_name@ == class@ + "_"@ + method@ + "_Iter"@,
        names.new_fn@ == class@ + "_"@ + method@ + "_iter_new"@,
    ensures
        r@ == iter_method(class@, method@, item@, is_iter_mut),
{
    proof {
        reveal(iter_method);
    }
    let mut out = cat3("pub fn ", method, "(");
    out.append(if is_iter_mut { "&mut self" } else { "&self" });
    out.append(") -> impl Iterator<Item = ");
    out.append(item);
    out.append("> + '_ { unsafe { ");
    out.append("let ptr = S::as_ptr(&self.inner); ");
    out.append("let pin_self = std::pin::Pin::new_unchecked(&mut *ptr); ");
    out.append("let ctx = ffi::");
    out.append(names.new_fn.as_str());
    out.append("(pin_self); ");
    out.append(names.struct_name.as_str());
    out.append("::<'_, M> { ctx, _marker: std::marker::PhantomData } } }\n");
    out
}

/// The texts a method or field contributes to a class's wrapper.
pub struct WrapperParts {
    pub common: String,
    pub muts: String,
    pub statics: String,
    pub aux: String,
}

impl View for WrapperParts {
    type V = Parts;

    open spec fn view(&self) -> Parts {
        Parts { common: self.common@, muts: self.muts@, statics: self.statics@, aux: self.aux@ }
    }
}

fn ret_sig_of(ret: &Option<TypeKind>) -> (r: Option<String>)
    ensures
        opt_view(r) == ret_sig(crate::model::opt_ty_view(*ret)),
{
    match ret {
        None => Some(String::new()),
        Some(t) => match t.to_rust_wrapper_ret_type(Some("'_")) {
            Some(s) => Some(cat2(" -> ", s.as_str())),
            None => None,
        },
    }
}

fn ret_body_of(ret: &Option<TypeKind>, call: &str) -> (r: String)
    ensures
        r@ == ret_body(crate::model::opt_ty_view(*ret), call@),
{
    match ret {
        None => cat2(call, ";"),
        Some(t) => t.gen_ret_conversion(call),
    }
}

fn normal_method_text(
    c: &str,
    rust_name: &str,
    p: &str,
    ca: &str,
    ret: &Option<TypeKind>,
    sig: &str,
    kind: MethodKind,
) -> (r: String)
    ensures
        r@ == method_text(c@, rust_name@, p@, ca@, crate::model::opt_ty_view(*ret), sig@, kind),
{
    proof {
        reveal(method_text);
    }
    let ffi_name = cat3(c, "_method_", rust_name);
    let mut out = cat3("pub fn ", rust_name, "(");
    match kind {
        MethodKind::Static => {
            let call = cat3("ffi::", ffi_name.as_str(), "(");
            let mut call = call;
            call.append(ca);
            call.append(")");
            out.append(p);
            out.append(")");
            out.append(sig);
            out.append(" { unsafe { ");
            let body = ret_body_of(ret, call.as_str());
            out.append(body.as_str());
        },
        MethodKind::Const => {
            let params = crate::ffi::join_params_of("&self", p);
            let args = crate::ffi::join_params_of("&*ptr", ca);
            let mut call = cat3("ffi::", ffi_name.as_str(), "(");
            call.append(args.as_str());
            call.append(")");
            out.append(params.as_str());
            out.append(")");
            out.append(sig);
            out.append(" { unsafe { ");
            out.append("let ptr = S::as_ptr(&self.inner); ");
            let body = ret_body_of(ret, call.as_str());
            out.append(body.as_str());
        },
        MethodKind::Mutable => {
            let params = crate::ffi::join_params_of("&mut self", p);
            let args = crate::ffi::join_params_of("pin_self", ca);
            let mut call = cat3("ffi::", ffi_name.as_str(), "(");
            call.append(args.as_str());
            call.append(")");
            out.append(params.as_str());
            out.append(")");
            out.append(sig);
            out.append(" { unsafe { ");
            out.append("let ptr = S::as_ptr(&self.inner); ");
            out.append("let pin_self = std::pin::Pin::new_unchecked(&mut *ptr); ");
            let body = ret_body_of(ret, call.as_str());
            out.append(body.as_str());
        },
    }
    out.append(" } }\n");
    out
}

pub open spec fn parts_of(r: Option<WrapperParts>) -> Option<Parts> {
    match r {
        Some(p) => Some(p@),
        None => None,
    }
}

/// The wrapper texts of `method` of the class named `class`.
pub fn generate_wrapper_method(class: &str, method: &MethodDef) -> (r: Option<WrapperParts>)
    ensures
        parts_of(r) == method_wrapper(class@, method@),
{
    proof {
        reveal(method_wrapper);
    }
    match method {
        MethodDef::Ctor(ctor) => {
            let (p, ca) = match process_method_args(&ctor.args) {
                Some(x) => x,
                None => {
                    return None;
                },
            };
            let mut ffi_name = cat3("make_", class, "_");
            ffi_name.append(ctor.rust_name.as_str());
            let mut t = cat3("pub fn ", ctor.rust_name.as_str(), "(");
            t.append(p.as_str());
            t.append(") -> ");
            push_handle_type(&mut t, "'static", class, "justcxx::Mut", "justcxx::Owned");
            t.append(" { unsafe { let unique_ptr = ffi::");
            t.append(ffi_name.as_str());
            t.append("(");
            t.append(ca.as_str());
            t.append("); ");
            t.append("CppObject { inner: ");
            t.append("unique_ptr");
            t.append(", _marker: std::marker::PhantomData }");
            t.append(" } }\n");
            Some(WrapperParts { common: String::new(), muts: String::new(), statics: t, aux: String::new() })
        },
        MethodDef::Method(f) => {
            let (p, ca) = match process_method_args(&f.args) {
                Some(x) => x,
                None => {
                    return None;
                },
            };
            let sig = match ret_sig_of(&f.ret_ty) {
                Some(s) => s,
                None => {
                    return None;
                },
            };
            let t = normal_method_text(class, f.rust_name.as_str(), p.as_str(), ca.as_str(), &f.ret_ty, sig.as_str(), f.kind);
            Some(match f.kind {
                MethodKind::Static => WrapperParts { common: String::new(), muts: String::new(), statics: t, aux: String::new() },
                MethodKind::Const => WrapperParts { common: t, muts: String::new(), statics: String::new(), aux: String::new() },
                MethodKind::Mutable => WrapperParts { common: String::new(), muts: t, statics: String::new(), aux: String::new() },
            })
        },
        MethodDef::Iter(it) => {
            let tag = match it.yield_ty.to_rust_tag() {
                Some(t) => t,
                None => {
                    return None;
                },
            };
            let struct_item = iter_item_of(tag.as_str(), "'a", it.is_owned, it.is_item_mut);
            let method_item = iter_item_of(tag.as_str(), "'_", it.is_owned, it.is_item_mut);
            let names = IterNames::new(class, it.rust_name.as_str());
            let aux = generate_iter_aux_struct(&names, class, it.rust_name.as_str(), struct_item.as_str());
            let m = generate_iter_wrapper_method(&names, class, it.rust_name.as_str(), method_item.as_str(), it.is_iter_mut);
            Some(WrapperParts { common: m, muts: String::new(), statics: String::new(), aux })
        },
    }
}

// ----------------------------------------------------------------- class

pub open spec fn fields_parts(c: Seq<char>, fs: Seq<FieldV>) -> Option<(Seq<char>, Seq<char>)>
    decreases fs.len(),
{
    if fs.len() == 0 {
        Some((Seq::empty(), Seq::empty()))
    } else {
        match (fields_parts(c, fs.drop_last()), field_wrapper(c, fs.last())) {
            (Some(a), Some(b)) => Some((a.0 + b.0, a.1 + b.1)),
            _ => None,
        }
    }
}

pub open spec fn join_parts(a: Parts, b: Parts) -> Parts {
    Parts {
        common: a.common + b.common,
        muts: a.muts + b.muts,
        statics: a.statics + b.statics,
        aux: a.aux + b.aux,
    }
}

pub open spec fn empty_parts() -> Parts {
    Parts { common: Seq::empty(), muts: Seq::empty(), statics: Seq::empty(), aux: Seq::empty() }
}

pub open spec fn methods_parts(c: Seq<char>, ms: Seq<MethodV>) -> Option<Parts>
    decreases ms.len(),
{
    if ms.len() == 0 {
        Some(empty_parts())
    } else {
        match (methods_parts(c, ms.drop_last()), method_wrapper(c, ms.last())) {
            (Some(a), Some(b)) => Some(join_parts(a, b)),
            _ => None,
        }
    }
}

/// The tag type of class `n` and its binding to the foreign type.
pub open spec fn tag_def(n: Seq<char>) -> Seq<char> {
    "#[derive(Clone, Copy)]\npub struct "@ + n + ";\nimpl justcxx::CppClass for "@ + n
        + " { type FfiType = ffi::"@ + n + "; }\n"@
}

/// The owned, borrowed and mutable handle aliases of class `n`.
pub open spec fn type_aliases(n: Seq<char>) -> Seq<char> {
    "impl justcxx::CppTypeAliases for "@ + n + " { type Owned = "@ + owned_handle(n)
        + "; type Ref<'a> = "@ + handle_type("'a"@, n, "justcxx::Const"@, "justcxx::Ref"@)
        + "; type Mut<'a> = "@ + handle_type("'a"@, n, "justcxx::Mut"@, "justcxx::Ref"@) + "; }\n"@
}

/// The wrapper of one class: tag, aliases, static methods, the accessors
/// of every handle, those of mutable handles only, then iterator types.
#[verifier::opaque]
pub open spec fn class_wrapper(c: ClassV) -> Option<Seq<char>> {
    let n = c.name;
    match (fields_parts(n, c.fields), methods_parts(n, c.methods)) {
        (Some(f), Some(m)) => Some(tag_def(n) + type_aliases(n)
            + (if m.statics.len() > 0 { "impl "@ + n + " {\n"@ + m.statics + "}\n"@ } else { Seq::empty() })
            + "impl<'a, M: justcxx::Mode, S: justcxx::Storage<"@ + n + ">> CppObject<'a, "@ + n + ", M, S> {\n"@
            + f.0 + m.common + "}\n"@
            + "impl<'a, S: justcxx::Storage<"@ + n + ">> CppObject<'a, "@ + n + ", justcxx::Mut, S> {\n"@
            + f.1 + m.muts + "}\n"@ + m.aux),
        _ => None,
    }
}

proof fn lemma_fields_parts_none(c: Seq<char>, fs: Seq<FieldV>, k: int)
    requires
        0 <= k <= fs.len(),
        fields_parts(c, fs.subrange(0, k)) is None,
    ensures
        fields_parts(c, fs) is None,
    decreases fs.len() - k,
{
    if k < fs.len() {
        assert(fs.subrange(0, k + 1).drop_last() =~= fs.subrange(0, k));
        lemma_fields_parts_none(c, fs, k + 1);
    } else {
        assert(fs.subrange(0, k) =~= fs);
    }
}

proof fn lemma_methods_parts_none(c: Seq<char>, ms: Seq<MethodV>, k: int)
    requires
        0 <= k <= ms.len(),
        methods_parts(c, ms.subrange(0, k)) is None,
    ensures
        methods_parts(c, ms) is None,
    decreases ms.len() - k,
{
    if k < ms.len() {
        assert(ms.subrange(0, k + 1).drop_last() =~= ms.subrange(0, k));
        lemma_methods_parts_none(c, ms, k + 1);
    } else {
        assert(ms.subrange(0, k) =~= ms);
    }
}

fn class_fields_parts(class: &ClassModel) -> (r: Option<(String, String)>)
    ensures
        match (r, fields_parts(class@.name, class@.fields)) {
            (Some((a, b)), Some((a2, b2))) => a@ == a2 && b@ == b2,
            (None, None) => true,
            _ => false,
        },
{
    let ghost cv = class@;
    let n = class.name.as_str();
    let mut common = String::new();
    let mut muts = String::new();
    let mut i: usize = 0;
    while i < class.fields.len()
        invariant
            0 <= i <= class.fields@.len(),
            cv == class@,
            n@ == cv.name,
            fields_parts(cv.name, cv.fields.subrange(0, i as int)) == Some((common@, muts@)),
        decreases class.fields@.len() - i,
    {
        let part = generate_wrapper_field(n, &class.fields[i]);
        proof {
            let pre = cv.fields.subrange(0, i + 1);
            assert(pre.drop_last() =~= cv.fields.subrange(0, i as int));
            assert(pre.last() == class.fields@[i as int]@);
        }
        match part {
            Some((g, st)) => {
                common.append(g.as_str());
                muts.append(st.as_str());
            },
            None => {
                proof {
                    lemma_fields_parts_none(cv.name, cv.fields, i + 1);
                }
                return None;
            },
        }
        i = i + 1;
    }
    assert(cv.fields.subrange(0, i as int) =~= cv.fields);
    Some((common, muts))
}

fn class_methods_parts(class: &ClassModel) -> (r: Option<WrapperParts>)
    ensures
        parts_of(r) == methods_parts(class@.name, class@.methods),
{
    let ghost cv = class@;
    let n = class.name.as_str();
    let mut acc = WrapperParts { common: String::new(), muts: String::new(), statics: String::new(), aux: String::new() };
    assert(acc@ == empty_parts());
    let mut i: usize = 0;
    while i < class.methods.len()
        invariant
            0 <= i <= class.methods@.len(),
            cv == class@,
            n@ == cv.name,
            methods_parts(cv.name, cv.methods.subrange(0, i as int)) == Some(acc@),
        decreases class.methods@.len() - i,
    {
        let part = generate_wrapper_method(n, &class.methods[i]);
        proof {
            let pre = cv.methods.subrange(0, i + 1);
            assert(pre.drop_last() =~= cv.methods.subrange(0, i as int));
            assert(pre.last() == class.methods@[i as int]@);
        }
        match part {
            Some(p) => {
                acc.common.append(p.common.as_str());
                acc.muts.append(p.muts.as_str());
                acc.statics.append(p.statics.as_str());
                acc.aux.append(p.aux.as_str());
            },
            None => {
                proof {
                    lemma_methods_parts_none(cv.name, cv.methods, i + 1);
                }
                return None;
            },
        }
        i = i + 1;
    }
    assert(cv.methods.subrange(0, i as int) =~= cv.methods);
    Some(acc)
}

fn push_class_head(out: &mut String, n: &str)
    ensures
        final(out)@ == old(out)@ + tag_def(n@) + type_aliases(n@),
{
    out.append("#[derive(Clone, Copy)]\npub struct ");
    out.append(n);
    out.append(";\nimpl justcxx::CppClass for ");
    out.append(n);
    out.append(" { type FfiType = ffi::");
    out.append(n);
    out.append("; }\n");
    out.append("impl justcxx::CppTypeAliases for ");
    out.append(n);
    out.append(" { type Owned = ");
    push_handle_type(out, "'static", n, "justcxx::Mut", "justcxx::Owned");
    out.append("; type Ref<'a> = ");
    push_handle_type(out, "'a", n, "justcxx::Const", "justcxx::Ref");
    out.append("; type Mut<'a> = ");
    push_handle_type(out, "'a", n, "justcxx::Mut", "justcxx::Ref");
    out.append("; }\n");
}

pub fn generate_wrapper_block(class: &ClassModel) -> (r: Option<String>)
    ensures
        opt_view(r) == class_wrapper(class@),
{
    proof {
        reveal(class_wrapper);
    }
    let n = class.name.as_str();
    let (fc, fm) = match class_fields_parts(class) {
        Some(x) => x,
        None => {
            return None;
        },
    };
    let m = match class_methods_parts(class) {
        Some(x) => x,
        None => {
            return None;
        },
    };
    let mut out = String::new();
    push_class_head(&mut out, n);
    if m.statics.as_str().unicode_len() > 0 {
        out.append("impl ");
        out.append(n);
        out.append(" {\n");
        out.append(m.statics.as_str());
        out.append("}\n");
    } else {
        assert(out@ =~= out@ + Seq::<char>::empty());
    }
    out.append("impl<'a, M: justcxx::Mode, S: justcxx::Storage<");
    out.append(n);
    out.append(">> CppObject<'a, ");
    out.append(n);
    out.append(", M, S> {\n");
    out.append(fc.as_str());
    out.append(m.common.as_str());
    out.append("}\n");
    out.append("impl<'a, S: justcxx::Storage<");
    out.append(n);
    out.append(">> CppObject<'a, ");
    out.append(n);
    out.append(", justcxx::Mut, S> {\n");
    out.append(fm.as_str());
    out.append(m.muts.as_str());
    out.append("}\n");
    out.append(m.aux.as_str());
    Some(out)
}

} // verus!
