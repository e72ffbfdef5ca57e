use vstd::prelude::*;
use crate::text::{cat2, cat3, lemma_text_assoc, opt_view};
use crate::types::{flat_name, nameable, rust_tag, Ty, TypeKind};

verus! {

broadcast use lemma_text_assoc;

/// The handle family of a container instantiation named `name` with marker type `tag`; containers are never owned on their own.
#[verifier::opaque]
pub open spec fn container_head(tag: Seq<char>, name: Seq<char>) -> Seq<char> {
    "impl justcxx::CppClass for "@ + tag + " { type FfiType = ffi::"@ + name + "; }\nimpl justcxx::CppTypeAliases for "@ + tag + " { type Owned = (); type Ref<'a> = CppObject<'a, "@ + tag + ", justcxx::Const, justcxx::Ref>; type Mut<'a> = CppObject<'a, "@ + tag + ", justcxx::Mut, justcxx::Ref>; }\n"@
}

fn push_container_head(out: &mut String, tag: &str, name: &str)
    ensures
        final(out)@ == old(out)@ + container_head(tag@, name@),
{
    proof {
        reveal(container_head);
    }
    out.append("impl justcxx::CppClass for ");
    out.append(tag);
    out.append(" { type FfiType = ffi::");
    out.append(name);
    out.append("; }\nimpl justcxx::CppTypeAliases for ");
    out.append(tag);
    out.append(" { type Owned = (); type Ref<'a> = CppObject<'a, ");
    out.append(tag);
    out.append(", justcxx::Const, justcxx::Ref>; type Mut<'a> = CppObject<'a, ");
    out.append(tag);
    out.append(", justcxx::Mut, justcxx::Ref>; }\n");
}

/// The accessors of a vector of primitives: length, checked get, slices, push.
#[verifier::opaque]
pub open spec fn vec_primitive_ops(tag: Seq<char>, name: Seq<char>, elem: Seq<char>) -> Seq<char> {
    "impl<'a, M: justcxx::Mode, S: justcxx::Storage<"@ + tag + ">> CppObject<'a, "@ + tag + ", M, S> {\npub fn len(&self) -> usize { unsafe { let ptr = S::as_ptr(&self.inner); ffi::"@ + name + "_len(&*ptr) } }\npub fn get(&self, index: usize) -> Option<"@ + elem + "> { unsafe { let ptr = S::as_ptr(&self.inner); match ffi::"@ + name + "_get(&*ptr, index) { Ok(n) => Some(n), Err(_) => None } } }\npub fn as_slice(&self) -> &["@ + elem + "] { unsafe { let ptr = S::as_ptr(&self.inner); ffi::"@ + name + "_as_slice(&*ptr) } }\npub fn iter(&self) -> impl Iterator<Item = &"@ + elem + "> { self.as_slice().iter() }\n}\nimpl<'a, S: justcxx::Storage<"@ + tag + ">> CppObject<'a, "@ + tag + ", justcxx::Mut, S> {\npub fn get_mut(&mut self, index: usize) -> Option<&mut "@ + elem + "> { unsafe { let ptr = S::as_ptr(&self.inner); let pin_self = std::pin::Pin::new_unchecked(&mut *ptr); match ffi::"@ + name + "_get_mut(pin_self, index) { Ok(ret) => Some(ret.get_unchecked_mut()), Err(_) => None } } }\npub fn push(&mut self, val: "@ + elem + ") { unsafe { let ptr = S::as_ptr(&self.inner); let pin_self = std::pin::Pin::new_unchecked(&mut *ptr); ffi::"@ + name + "_push(pin_self, val); } }\npub fn as_mut_slice(&mut self) -> &mut ["@ + elem + "] { unsafe { let ptr = S::as_ptr(&self.inner); let pin_self = std::pin::Pin::new_unchecked(&mut *ptr); ffi::"@ + name + "_as_mut_slice(pin_self) } }\npub fn iter_mut(&mut self) -> impl Iterator<Item = &mut "@ + elem + "> { self.as_mut_slice().iter_mut() }\n}\n"@
}

fn push_vec_primitive_ops(out: &mut String, tag: &str, name: &str, elem: &str)
    ensures
        final(out)@ == old(out)@ + vec_primitive_ops(tag@, name@, elem@),
{
    proof {
        reveal(vec_primitive_ops);
    }
    out.append("impl<'a, M: justcxx::Mode, S: justcxx::Storage<");
    out.append(tag);
    out.append(">> CppObject<'a, ");
    out.append(tag);
    out.append(", M, S> {\npub fn len(&self) -> usize { unsafe { let ptr = S::as_ptr(&self.inner); ffi::");
    out.append(name);
    out.append("_len(&*ptr) } }\npub fn get(&self, index: usize) -> Option<");
    out.append(elem);
    out.append("> { unsafe { let ptr = S::as_ptr(&self.inner); match ffi::");
    out.append(name);
    out.append("_get(&*ptr, index) { Ok(n) => Some(n), Err(_) => None } } }\npub fn as_slice(&self) -> &[");
    out.append(elem);
    out.append("] { unsafe { let ptr = S::as_ptr(&self.inner); ffi::");
    out.append(name);
    out.append("_as_slice(&*ptr) } }\npub fn iter(&self) -> impl Iterator<Item = &");
    out.append(elem);
    out.append("> { self.as_slice().iter() }\n}\nimpl<'a, S: justcxx::Storage<");
    out.append(tag);
    out.append(">> CppObject<'a, ");
    out.append(tag);
    out.append(", justcxx::Mut, S> {\npub fn get_mut(&mut self, index: usize) -> Option<&mut ");
    out.append(elem);
    out.append("> { unsafe { let ptr = S::as_ptr(&self.inner); let pin_self = std::pin::Pin::new_unchecked(&mut *ptr); match ffi::");
    out.append(name);
    out.append("_get_mut(pin_self, index) { Ok(ret) => Some(ret.get_unchecked_mut()), Err(_) => None } } }\npub fn push(&mut self, val: ");
    out.append(elem);
    out.append(") { unsafe { let ptr = S::as_ptr(&self.inner); let pin_self = std::pin::Pin::new_unchecked(&mut *ptr); ffi::");
    out.append(name);
    out.append("_push(pin_self, val); } }\npub fn as_mut_slice(&mut self) -> &mut [");
    out.append(elem);
    out.append("] { unsafe { let ptr = S::as_ptr(&self.inner); let pin_self = std::pin::Pin::new_unchecked(&mut *ptr); ffi::");
    out.append(name);
    out.append("_as_mut_slice(pin_self) } }\npub fn iter_mut(&mut self) -> impl Iterator<Item = &mut ");
    out.append(elem);
    out.append("> { self.as_mut_slice().iter_mut() }\n}\n");
}

/// The accessors of a vector of strings: length, checked get, push, bounds-checked set.
#[verifier::opaque]
pub open spec fn vec_string_ops(tag: Seq<char>, name: Seq<char>) -> Seq<char> {
    "impl<'a, M: justcxx::Mode, S: justcxx::Storage<"@ + tag + ">> CppObject<'a, "@ + tag + ", M, S> {\npub fn len(&self) -> usize { unsafe { let ptr = S::as_ptr(&self.inner); ffi::"@ + name + "_len(&*ptr) } }\npub unsafe fn get(&self, index: usize) -> Option<String> { unsafe { let ptr = S::as_ptr(&self.inner); match ffi::"@ + name + "_get(&*ptr, index) { Ok(s) => Some(s), Err(_) => None } } }\npub fn iter(&self) -> impl Iterator<Item = String> + '_ { let this = self.as_ref(); (0..this.len()).map(move |i| unsafe { this.get(i).unwrap() }) }\n}\nimpl<'a, S: justcxx::Storage<"@ + tag + ">> CppObject<'a, "@ + tag + ", justcxx::Mut, S> {\npub fn push(&mut self, val: &str) { unsafe { let ptr = S::as_ptr(&self.inner); let pin_self = std::pin::Pin::new_unchecked(&mut *ptr); ffi::"@ + name + "_push(pin_self, val); } }\npub fn set(&mut self, index: usize, val: &str) { if index >= self.len() { panic!(\"index out of bounds: the len is {} but the index is {}\", self.len(), index); } unsafe { let ptr = S::as_ptr(&self.inner); let pin_self = std::pin::Pin::new_unchecked(&mut *ptr); ffi::"@ + name + "_set(pin_self, index, val); } }\n}\n"@
}

fn push_vec_string_ops(out: &mut String, tag: &str, name: &str)
    ensures
        final(out)@ == old(out)@ + vec_string_ops(tag@, name@),
{
    proof {
        reveal(vec_string_ops);
    }
    out.append("impl<'a, M: justcxx::Mode, S: justcxx::Storage<");
    out.append(tag);
    out.append(">> CppObject<'a, ");
    out.append(tag);
    out.append(", M, S> {\npub fn len(&self) -> usize { unsafe { let ptr = S::as_ptr(&self.inner); ffi::");
    out.append(name);
    out.append("_len(&*ptr) } }\npub unsafe fn get(&self, index: usize) -> Option<String> { unsafe { let ptr = S::as_ptr(&self.inner); match ffi::");
    out.append(name);
    out.append("_get(&*ptr, index) { Ok(s) => Some(s), Err(_) => None } } }\npub fn iter(&self) -> impl Iterator<Item = String> + '_ { let this = self.as_ref(); (0..this.len()).map(move |i| unsafe { this.get(i).unwrap() }) }\n}\nimpl<'a, S: justcxx::Storage<");
    out.append(tag);
    out.append(">> CppObject<'a, ");
    out.append(tag);
    out.append(", justcxx::Mut, S> {\npub fn push(&mut self, val: &str) { unsafe { let ptr = S::as_ptr(&self.inner); let pin_self = std::pin::Pin::new_unchecked(&mut *ptr); ffi::");
    out.append(name);
    out.append("_push(pin_self, val); } }\npub fn set(&mut self, index: usize, val: &str) { if index >= self.len() { panic!(\"index out of bounds: the len is {} but the index is {}\", self.len(), index); } unsafe { let ptr = S::as_ptr(&self.inner); let pin_self = std::pin::Pin::new_unchecked(&mut *ptr); ffi::");
    out.append(name);
    out.append("_set(pin_self, index, val); } }\n}\n");
}

/// The accessors of a vector of objects: borrowed handles out, owned handles in.
#[verifier::opaque]
pub open spec fn vec_obj_ops(tag: Seq<char>, name: Seq<char>, elem: Seq<char>) -> Seq<char> {
    "impl<'a, M: justcxx::Mode, S: justcxx::Storage<"@ + tag + ">> CppObject<'a, "@ + tag + ", M, S> {\npub fn len(&self) -> usize { unsafe { let ptr = S::as_ptr(&self.inner); ffi::"@ + name + "_len(&*ptr) } }\npub fn get(&self, index: usize) -> Option<CppObject<'a, "@ + elem + ", justcxx::Const, justcxx::Ref>> { unsafe { let ptr = S::as_ptr(&self.inner); match ffi::"@ + name + "_get(&*ptr, index) { Ok(ret_ref) => { let ret_ptr = (ret_ref as *const _) as *mut _; Some(CppObject { inner: ret_ptr, _marker: std::marker::PhantomData }) }, Err(_) => None } } }\npub fn iter(&self) -> impl Iterator<Item = CppObject<'_, "@ + elem + ", justcxx::Const, justcxx::Ref>> + '_ { let this = self.as_ref(); (0..this.len()).map(move |i| this.get(i).unwrap()) }\n}\nimpl<'a, S: justcxx::Storage<"@ + tag + ">> CppObject<'a, "@ + tag + ", justcxx::Mut, S> {\npub fn get_mut(&mut self, index: usize) -> Option<CppObject<'a, "@ + elem + ", justcxx::Mut, justcxx::Ref>> { unsafe { let ptr = S::as_ptr(&self.inner); let pin_self = std::pin::Pin::new_unchecked(&mut *ptr); match ffi::"@ + name + "_get_mut(pin_self, index) { Ok(ret_ref) => { let ret_ptr = ret_ref.get_unchecked_mut() as *mut _; Some(CppObject { inner: ret_ptr, _marker: std::marker::PhantomData }) }, Err(_) => None } } }\npub fn push(&mut self, val: justcxx::CppOwned<"@ + elem + ">) { unsafe { let ptr = S::as_ptr(&self.inner); let pin_self = std::pin::Pin::new_unchecked(&mut *ptr); ffi::"@ + name + "_push(pin_self, val.inner); } }\npub fn iter_mut(&mut self) -> impl Iterator<Item = CppObject<'_, "@ + elem + ", justcxx::Mut, justcxx::Ref>> + '_ { let mut this = self.as_mut(); (0..self.len()).map(move |i| this.get_mut(i).unwrap()) }\n}\n"@
}

fn push_vec_obj_ops(out: &mut String, tag: &str, name: &str, elem: &str)
    ensures
        final(out)@ == old(out)@ + vec_obj_ops(tag@, name@, elem@),
{
    proof {
        reveal(vec_obj_ops);
    }
    out.append("impl<'a, M: justcxx::Mode, S: justcxx::Storage<");
    out.append(tag);
    out.append(">> CppObject<'a, ");
    out.append(tag);
    out.append(", M, S> {\npub fn len(&self) -> usize { unsafe { let ptr = S::as_ptr(&self.inner); ffi::");
    out.append(name);
    out.append("_len(&*ptr) } }\npub fn get(&self, index: usize) -> Option<CppObject<'a, ");
    out.append(elem);
    out.append(", justcxx::Const, justcxx::Ref>> { unsafe { let ptr = S::as_ptr(&self.inner); match ffi::");
    out.append(name);
    out.append("_get(&*ptr, index) { Ok(ret_ref) => { let ret_ptr = (ret_ref as *const _) as *mut _; Some(CppObject { inner: ret_ptr, _marker: std::marker::PhantomData }) }, Err(_) => None } } }\npub fn iter(&self) -> impl Iterator<Item = CppObject<'_, ");
    out.append(elem);
    out.append(", justcxx::Const, justcxx::Ref>> + '_ { let this = self.as_ref(); (0..this.len()).map(move |i| this.get(i).unwrap()) }\n}\nimpl<'a, S: justcxx::Storage<");
    out.append(tag);
    out.append(">> CppObject<'a, ");
    out.append(tag);
    out.append(", justcxx::Mut, S> {\npub fn get_mut(&mut self, index: usize) -> Option<CppObject<'a, ");
    out.append(elem);
    out.append(", justcxx::Mut, justcxx::Ref>> { unsafe { let ptr = S::as_ptr(&self.inner); let pin_self = std::pin::Pin::new_unchecked(&mut *ptr); match ffi::");
    out.append(name);
    out.append("_get_mut(pin_self, index) { Ok(ret_ref) => { let ret_ptr = ret_ref.get_unchecked_mut() as *mut _; Some(CppObject { inner: ret_ptr, _marker: std::marker::PhantomData }) }, Err(_) => None } } }\npub fn push(&mut self, val: justcxx::CppOwned<");
    out.append(elem);
    out.append(">) { unsafe { let ptr = S::as_ptr(&self.inner); let pin_self = std::pin::Pin::new_unchecked(&mut *ptr); ffi::");
    out.append(name);
    out.append("_push(pin_self, val.inner); } }\npub fn iter_mut(&mut self) -> impl Iterator<Item = CppObject<'_, ");
    out.append(elem);
    out.append(", justcxx::Mut, justcxx::Ref>> + '_ { let mut this = self.as_mut(); (0..self.len()).map(move |i| this.get_mut(i).unwrap()) }\n}\n");
}

/// The forward-only sequence of the entries of a map, ended by the native context.
#[verifier::opaque]
pub open spec fn map_iter_struct(name: Seq<char>, key: Seq<char>, val: Seq<char>, mapper: Seq<char>) -> Seq<char> {
    "#[allow(non_camel_case_types)]\npub struct "@ + name + "_Iter<'a, M: justcxx::Mode> { ctx: cxx::UniquePtr<ffi::"@ + name + "_IterCtx>, _marker: std::marker::PhantomData<(&'a (), M)>, }\nimpl<'a, M: justcxx::Mode> Iterator for "@ + name + "_Iter<'a, M> { type Item = ("@ + key + ", "@ + val + "); fn next(&mut self) -> Option<Self::Item> { unsafe { if ffi::"@ + name + "_iter_is_end(self.ctx.pin_mut()) { return None; } let k = ffi::"@ + name + "_iter_key(self.ctx.pin_mut()); let v_raw = ffi::"@ + name + "_iter_val(self.ctx.pin_mut()); let v = { "@ + mapper + " }; ffi::"@ + name + "_iter_step(self.ctx.pin_mut()); Some((k, v)) } } }\n"@
}

fn push_map_iter_struct(out: &mut String, name: &str, key: &str, val: &str, mapper: &str)
    ensures
        final(out)@ == old(out)@ + map_iter_struct(name@, key@, val@, mapper@),
{
    proof {
        reveal(map_iter_struct);
    }
    out.append("#[allow(non_camel_case_types)]\npub struct ");
    out.append(name);
    out.append("_Iter<'a, M: justcxx::Mode> { ctx: cxx::UniquePtr<ffi::");
    out.append(name);
    out.append("_IterCtx>, _marker: std::marker::PhantomData<(&'a (), M)>, }\nimpl<'a, M: justcxx::Mode> Iterator for ");
    out.append(name);
    out.append("_Iter<'a, M> { type Item = (");
    out.append(key);
    out.append(", ");
    out.append(val);
    out.append("); fn next(&mut self) -> Option<Self::Item> { unsafe { if ffi::");
    out.append(name);
    out.append("_iter_is_end(self.ctx.pin_mut()) { return None; } let k = ffi::");
    out.append(name);
    out.append("_iter_key(self.ctx.pin_mut()); let v_raw = ffi::");
    out.append(name);
    out.append("_iter_val(self.ctx.pin_mut()); let v = { ");
    out.append(mapper);
    out.append(" }; ffi::");
    out.append(name);
    out.append("_iter_step(self.ctx.pin_mut()); Some((k, v)) } } }\n");
}

/// The accessors of a map: length, keyed get with an absent value for a missing key, iteration.
#[verifier::opaque]
pub open spec fn map_ops(tag: Seq<char>, name: Seq<char>, key_arg: Seq<char>, val: Seq<char>, bind: Seq<char>, mapper: Seq<char>) -> Seq<char> {
    "impl<'a, M: justcxx::Mode, S: justcxx::Storage<"@ + tag + ">> CppObject<'a, "@ + tag + ", M, S> {\npub fn len(&self) -> usize { unsafe { let ptr = S::as_ptr(&self.inner); ffi::"@ + name + "_len(&*ptr) } }\npub fn get(&self, key: "@ + key_arg + ") -> Option<"@ + val + "> { unsafe { let ptr = S::as_ptr(&self.inner); let pin_self = std::pin::Pin::new_unchecked(&mut *ptr); match ffi::"@ + name + "_get(pin_self, key) { Ok("@ + bind + ") => { let val = { "@ + mapper + " }; Some(val) }, Err(_) => None } } }\npub fn iter(&self) -> "@ + name + "_Iter<'a, justcxx::Const> { unsafe { let ptr = S::as_ptr(&self.inner); let pin_self = std::pin::Pin::new_unchecked(&mut *ptr); let ctx = ffi::"@ + name + "_iter_new(pin_self); "@ + name + "_Iter::<'a, justcxx::Const> { ctx, _marker: std::marker::PhantomData } } }\n}\n"@
}

fn push_map_ops(out: &mut String, tag: &str, name: &str, key_arg: &str, val: &str, bind: &str, mapper: &str)
    ensures
        final(out)@ == old(out)@ + map_ops(tag@, name@, key_arg@, val@, bind@, mapper@),
{
    proof {
        reveal(map_ops);
    }
    out.append("impl<'a, M: justcxx::Mode, S: justcxx::Storage<");
    out.append(tag);
    out.append(">> CppObject<'a, ");
    out.append(tag);
    out.append(", M, S> {\npub fn len(&self) -> usize { unsafe { let ptr = S::as_ptr(&self.inner); ffi::");
    out.append(name);
    out.append("_len(&*ptr) } }\npub fn get(&self, key: ");
    out.append(key_arg);
    out.append(") -> Option<");
    out.append(val);
    out.append("> { unsafe { let ptr = S::as_ptr(&self.inner); let pin_self = std::pin::Pin::new_unchecked(&mut *ptr); match ffi::");
    out.append(name);
    out.append("_get(pin_self, key) { Ok(");
    out.append(bind);
    out.append(") => { let val = { ");
    out.append(mapper);
    out.append(" }; Some(val) }, Err(_) => None } } }\npub fn iter(&self) -> ");
    out.append(name);
    out.append("_Iter<'a, justcxx::Const> { unsafe { let ptr = S::as_ptr(&self.inner); let pin_self = std::pin::Pin::new_unchecked(&mut *ptr); let ctx = ffi::");
    out.append(name);
    out.append("_iter_new(pin_self); ");
    out.append(name);
    out.append("_Iter::<'a, justcxx::Const> { ctx, _marker: std::marker::PhantomData } } }\n}\n");
}


/// The wrapper of one vector instantiation; none for an element that is
/// not a string, a class or a primitive.
#[verifier::opaque]
pub open spec fn vec_wrapper(t: Ty) -> Option<Seq<char>> {
    match t {
        Ty::Vector(e, _) => match rust_tag(t) {
            Some(tag) => {
                let name = flat_name(t);
                match *e {
                    Ty::Str => Some(container_head(tag, name) + vec_string_ops(tag, name)),
                    Ty::Object(n) => Some(container_head(tag, name) + vec_obj_ops(tag, name, n)),
                    Ty::Primitive(n) => Some(container_head(tag, name) + vec_primitive_ops(tag, name, n)),
                    _ => None,
                }
            },
            None => None,
        },
        _ => Some(Seq::empty()),
    }
}

pub fn generate_vec_wrapper(def: &TypeKind) -> (r: Option<String>)
    requires
        nameable(def@),
    ensures
        opt_view(r) == vec_wrapper(def@),
{
    proof {
        reveal(vec_wrapper);
    }
    proof {
        reveal_with_fuel(crate::types::ty_of, 2);
    }
    match def {
        TypeKind::Vector { inner, .. } => {
            let tag = match def.to_rust_tag() {
                Some(t) => t,
                None => {
                    return None;
                },
            };
            let name = def.get_flat_name();
            let mut out = String::new();
            push_container_head(&mut out, tag.as_str(), name.as_str());
            match &**inner {
                TypeKind::String => push_vec_string_ops(&mut out, tag.as_str(), name.as_str()),
                TypeKind::Object(n) => push_vec_obj_ops(&mut out, tag.as_str(), name.as_str(), n.as_str()),
                TypeKind::Primitive(n) => push_vec_primitive_ops(&mut out, tag.as_str(), name.as_str(), n.as_str()),
                _ => {
                    return None;
                },
            }
            Some(out)
        },
        _ => Some(String::new()),
    }
}

/// The key type that map iteration yields and the key parameter type of `get`.
pub open spec fn map_key_types(k: Ty) -> Option<(Seq<char>, Seq<char>)> {
    match k {
        Ty::Str => Some(("String"@, "&str"@)),
        Ty::Primitive(n) => Some((n, n)),
        _ => None,
    }
}

/// The value type of a map as the wrapper hands it out, the name bound to
/// the native result in `get`, and the conversions in `get` and in iteration.
pub open spec fn map_val_config(v: Ty) -> Option<(Seq<char>, Seq<char>, Seq<char>, Seq<char>)> {
    match v {
        Ty::Object(n) => Some((
            "CppObject<'a, "@ + n + ", M, justcxx::Ref>"@,
            "ret_pin"@,
            "let ret_ptr = ret_pin.get_unchecked_mut() as *mut _; CppObject { inner: ret_ptr, _marker: std::marker::PhantomData }"@,
            "let v_ptr = v_raw.get_unchecked_mut() as *mut _; CppObject { inner: v_ptr, _marker: std::marker::PhantomData }"@,
        )),
        Ty::Str => Some(("String"@, "ret_val"@, "ret_val"@, "v_raw"@)),
        Ty::Primitive(n) => Some((n, "ret_val"@, "ret_val"@, "v_raw"@)),
        _ => None,
    }
}

/// The wrapper of one map instantiation; none for keys other than strings
/// and primitives or values other than strings, classes and primitives.
#[verifier::opaque]
pub open spec fn map_wrapper(t: Ty) -> Option<Seq<char>> {
    match t {
        Ty::Mapping(k, v, _) => match (rust_tag(t), map_key_types(*k), map_val_config(*v)) {
            (Some(tag), Some(kt), Some(vc)) => {
                let name = flat_name(t);
                Some(container_head(tag, name) + map_iter_struct(name, kt.0, vc.0, vc.3)
                    + map_ops(tag, name, kt.1, vc.0, vc.1, vc.2))
            },
            _ => None,
        },
        _ => Some(Seq::empty()),
    }
}

fn map_key_types_of(k: &TypeKind) -> (r: Option<(String, String)>)
    ensures
        match (r, map_key_types(k@)) {
            (Some((a, b)), Some((a2, b2))) => a@ == a2 && b@ == b2,
            (None, None) => true,
            _ => false,
        },
{
    match k {
        TypeKind::String => Some((String::from_str("String"), String::from_str("&str"))),
        TypeKind::Primitive(n) => Some((n.clone(), n.clone())),
        _ => None,
    }
}

fn map_val_config_of(v: &TypeKind) -> (r: Option<(String, String, String, String)>)
    ensures
        match (r, map_val_config(v@)) {
            (Some((a, b, c, d)), Some((a2, b2, c2, d2))) => a@ == a2 && b@ == b2 && c@ == c2 && d@ == d2,
            (None, None) => true,
            _ => false,
        },
{
    match v {
        TypeKind::Object(n) => Some((
            cat3("CppObject<'a, ", n.as_str(), ", M, justcxx::Ref>"),
            String::from_str("ret_pin"),
            String::from_str("let ret_ptr = ret_pin.get_unchecked_mut() as *mut _; CppObject { inner: ret_ptr, _marker: std::marker::PhantomData }"),
            String::from_str("let v_ptr = v_raw.get_unchecked_mut() as *mut _; CppObject { inner: v_ptr, _marker: std::marker::PhantomData }"),
        )),
        TypeKind::String => Some((
            String::from_str("String"),
            String::from_str("ret_val"),
            String::from_str("ret_val"),
            String::from_str("v_raw"),
        )),
        TypeKind::Primitive(n) => Some((
            n.clone(),
            String::from_str("ret_val"),
            String::from_str("ret_val"),
            String::from_str("v_raw"),
        )),
        _ => None,
    }
}

pub fn generate_map_wrapper(def: &TypeKind) -> (r: Option<String>)
    requires
        nameable(def@),
    ensures
        opt_view(r) == map_wrapper(def@),
{
    proof {
        reveal(map_wrapper);
    }
    match def {
        TypeKind::Mapping { key, value, .. } => {
            let (tag, kt, vc) = match (def.to_rust_tag(), map_key_types_of(key), map_val_config_of(value)) {
                (Some(tag), Some(kt), Some(vc)) => (tag, kt, vc),
                _ => {
                    return None;
                },
            };
            let name = def.get_flat_name();
            let mut out = String::new();
            push_container_head(&mut out, tag.as_str(), name.as_str());
            push_map_iter_struct(&mut out, name.as_str(), kt.0.as_str(), vc.0.as_str(), vc.3.as_str());
            push_map_ops(&mut out, tag.as_str(), name.as_str(), kt.1.as_str(), vc.0.as_str(), vc.1.as_str(), vc.2.as_str());
            Some(out)
        },
        _ => Some(String::new()),
    }
}

} // verus!
