use vstd::prelude::*;
use crate::text::{lemma_text_assoc, opt_view};
use crate::types::{Ty, TypeKind};
use crate::model::{models_view, types_view, BindContext, ClassModel, ClassV};
use crate::preprocess::strings_view;
use crate::registry::{class_valid, ctx_ok, map_key_ok, map_keys_ok, registry_list_ok};
use crate::types::nameable;
use crate::ffi::{class_ffi, generate_ffi_block, generate_map_ffi_entry, generate_vec_ffi_entry, map_ffi, vec_ffi};
use crate::wrapper::{class_wrapper, generate_wrapper_block};
use crate::containers::{generate_map_wrapper, generate_vec_wrapper, map_wrapper, vec_wrapper};

verus! {

broadcast use lemma_text_assoc;

/// The handle type shared by every generated accessor, with its copy, borrow, debug and identity impls, and the container marker types.
#[verifier::opaque]
pub open spec fn prelude() -> Seq<char> {
    "use cxx;\n\n#[repr(transparent)]\npub struct CppObject<'a, T: justcxx::CppClass, M: justcxx::Mode, S: justcxx::Storage<T>> {\n    pub inner: S::Inner,\n    pub _marker: std::marker::PhantomData<(&'a (), M)>,\n}\n\nimpl<'a, T: justcxx::CppClass, M: justcxx::Mode> Clone for CppObject<'a, T, M, justcxx::Ref> {\n    fn clone(&self) -> Self {\n        *self\n    }\n}\n\nimpl<'a, T: justcxx::CppClass, M: justcxx::Mode> Copy for CppObject<'a, T, M, justcxx::Ref> {}\n\nimpl<'a, T, M: justcxx::Mode, S: justcxx::Storage<T>> CppObject<'a, T, M, S>\nwhere\n    T: justcxx::CppClass + justcxx::CppTypeAliases,\n{\n    fn as_ptr(&self) -> *mut T::FfiType {\n        unsafe { S::as_ptr(&self.inner) }\n    }\n\n    pub fn as_ref(&self) -> CppObject<'_, T, justcxx::Const, justcxx::Ref> {\n        CppObject { inner: self.as_ptr(), _marker: std::marker::PhantomData }\n    }\n}\n\nimpl<'a, T, S: justcxx::Storage<T>> CppObject<'a, T, justcxx::Mut, S>\nwhere\n    T: justcxx::CppClass + justcxx::CppTypeAliases,\n{\n    pub fn as_mut(&self) -> CppObject<'_, T, justcxx::Mut, justcxx::Ref> {\n        CppObject { inner: self.as_ptr(), _marker: std::marker::PhantomData }\n    }\n}\n\nimpl<'a, T: justcxx::CppClass, M: justcxx::Mode, S: justcxx::Storage<T>> std::fmt::Debug for CppObject<'a, T, M, S> {\n    fn fmt(&self, f: &mut std::fmt::Formatter<'_>) -> std::fmt::Result {\n        let ptr = unsafe { S::as_ptr(&self.inner) };\n        write!(f, \"CppObject({:p})\", ptr)\n    }\n}\n\nimpl<'a, T: justcxx::CppClass, M: justcxx::Mode, S: justcxx::Storage<T>> PartialEq for CppObject<'a, T, M, S> {\n    fn eq(&self, other: &Self) -> bool {\n        unsafe { S::as_ptr(&self.inner) == S::as_ptr(&other.inner) }\n    }\n}\n\n#[repr(transparent)]\npub struct CppVector<T>(pub std::marker::PhantomData<T>);\n#[repr(transparent)]\npub struct CppVectorPtr<T>(pub std::marker::PhantomData<T>);\n#[repr(transparent)]\npub struct CppMap<K, V>(pub std::marker::PhantomData<(K, V)>);\n#[repr(transparent)]\npub struct CppMapPtr<K, V>(pub std::marker::PhantomData<(K, V)>);\n\n"@
}

fn push_prelude(out: &mut String)
    ensures
        final(out)@ == old(out)@ + prelude(),
{
    proof {
        reveal(prelude);
    }
    out.append("use cxx;\n\n#[repr(transparent)]\npub struct CppObject<'a, T: justcxx::CppClass, M: justcxx::Mode, S: justcxx::Storage<T>> {\n    pub inner: S::Inner,\n    pub _marker: std::marker::PhantomData<(&'a (), M)>,\n}\n\nimpl<'a, T: justcxx::CppClass, M: justcxx::Mode> Clone for CppObject<'a, T, M, justcxx::Ref> {\n    fn clone(&self) -> Self {\n        *self\n    }\n}\n\nimpl<'a, T: justcxx::CppClass, M: justcxx::Mode> Copy for CppObject<'a, T, M, justcxx::Ref> {}\n\nimpl<'a, T, M: justcxx::Mode, S: justcxx::Storage<T>> CppObject<'a, T, M, S>\nwhere\n    T: justcxx::CppClass + justcxx::CppTypeAliases,\n{\n    fn as_ptr(&self) -> *mut T::FfiType {\n        unsafe { S::as_ptr(&self.inner) }\n    }\n\n    pub fn as_ref(&self) -> CppObject<'_, T, justcxx::Const, justcxx::Ref> {\n        CppObject { inner: self.as_ptr(), _marker: std::marker::PhantomData }\n    }\n}\n\nimpl<'a, T, S: justcxx::Storage<T>> CppObject<'a, T, justcxx::Mut, S>\nwhere\n    T: justcxx::CppClass + justcxx::CppTypeAliases,\n{\n    pub fn as_mut(&self) -> CppObject<'_, T, justcxx::Mut, justcxx::Ref> {\n        CppObject { inner: self.as_ptr(), _marker: std::marker::PhantomData }\n    }\n}\n\nimpl<'a, T: justcxx::CppClass, M: justcxx::Mode, S: justcxx::Storage<T>> std::fmt::Debug for CppObject<'a, T, M, S> {\n    fn fmt(&self, f: &mut std::fmt::Formatter<'_>) -> std::fmt::Result {\n        let ptr = unsafe { S::as_ptr(&self.inner) };\n        write!(f, \"CppObject({:p})\", ptr)\n    }\n}\n\nimpl<'a, T: justcxx::CppClass, M: justcxx::Mode, S: justcxx::Storage<T>> PartialEq for CppObject<'a, T, M, S> {\n    fn eq(&self, other: &Self) -> bool {\n        unsafe { S::as_ptr(&self.inner) == S::as_ptr(&other.inner) }\n    }\n}\n\n#[repr(transparent)]\npub struct CppVector<T>(pub std::marker::PhantomData<T>);\n#[repr(transparent)]\npub struct CppVectorPtr<T>(pub std::marker::PhantomData<T>);\n#[repr(transparent)]\npub struct CppMap<K, V>(pub std::marker::PhantomData<(K, V)>);\n#[repr(transparent)]\npub struct CppMapPtr<K, V>(pub std::marker::PhantomData<(K, V)>);\n\n");
}


/// The texts of `xs` under `f`, concatenated in order; none if any is none.
pub open spec fn concat_all<A>(xs: Seq<A>, f: spec_fn(A) -> Option<Seq<char>>) -> Option<Seq<char>>
    decreases xs.len(),
{
    if xs.len() == 0 {
        Some(Seq::empty())
    } else {
        match (concat_all(xs.drop_last(), f), f(xs.last())) {
            (Some(a), Some(b)) => Some(a + b),
            _ => None,
        }
    }
}

proof fn lemma_concat_all_none<A>(xs: Seq<A>, f: spec_fn(A) -> Option<Seq<char>>, k: int)
    requires
        0 <= k <= xs.len(),
        concat_all(xs.subrange(0, k), f) is None,
    ensures
        concat_all(xs, f) is None,
    decreases xs.len() - k,
{
    if k < xs.len() {
        assert(xs.subrange(0, k + 1).drop_last() =~= xs.subrange(0, k));
        lemma_concat_all_none(xs, f, k + 1);
    } else {
        assert(xs.subrange(0, k) =~= xs);
    }
}

/// Which text a container instantiation contributes.
#[derive(Clone, Copy, PartialEq, Eq, Structural)]
pub enum EntryText {
    VecDecls,
    MapDecls,
    VecWrapper,
    MapWrapper,
}

pub open spec fn entry_text(which: EntryText) -> spec_fn(Ty) -> Option<Seq<char>> {
    match which {
        EntryText::VecDecls => |t: Ty| vec_ffi(t),
        EntryText::MapDecls => |t: Ty| map_ffi(t),
        EntryText::VecWrapper => |t: Ty| vec_wrapper(t),
        EntryText::MapWrapper => |t: Ty| map_wrapper(t),
    }
}

fn emit_entry(def: &TypeKind, which: EntryText) -> (r: Option<String>)
    requires
        nameable(def@),
        which == EntryText::MapDecls ==> map_key_ok(def@),
    ensures
        opt_view(r) == (entry_text(which))(def@),
{
    match which {
        EntryText::VecDecls => generate_vec_ffi_entry(def),
        EntryText::MapDecls => generate_map_ffi_entry(def),
        EntryText::VecWrapper => generate_vec_wrapper(def),
        EntryText::MapWrapper => generate_map_wrapper(def),
    }
}

/// The texts of every registry entry, in registry order.
pub fn emit_entries(defs: &Vec<TypeKind>, which: EntryText) -> (r: Option<String>)
    requires
        registry_list_ok(types_view(defs@)),
        which == EntryText::MapDecls ==> map_keys_ok(types_view(defs@)),
    ensures
        opt_view(r) == concat_all(types_view(defs@), entry_text(which)),
{
    let ghost tv = types_view(defs@);
    let mut out = String::new();
    let mut i: usize = 0;
    while i < defs.len()
        invariant
            0 <= i <= defs@.len(),
            tv == types_view(defs@),
            registry_list_ok(tv),
            which == EntryText::MapDecls ==> map_keys_ok(tv),
            concat_all(tv.subrange(0, i as int), entry_text(which)) == Some(out@),
        decreases defs@.len() - i,
    {
        assert(nameable(tv[i as int]));
        assert(which == EntryText::MapDecls ==> map_key_ok(tv[i as int]));
        let part = emit_entry(&defs[i], which);
        proof {
            let pre = tv.subrange(0, i + 1);
            assert(pre.drop_last() =~= tv.subrange(0, i as int));
            assert(pre.last() == defs@[i as int]@);
        }
        match part {
            Some(p) => out.append(p.as_str()),
            None => {
                proof {
                    lemma_concat_all_none(tv, entry_text(which), i + 1);
                }
                return None;
            },
        }
        i = i + 1;
    }
    assert(tv.subrange(0, i as int) =~= tv);
    Some(out)
}

pub open spec fn class_text(decls: bool) -> spec_fn(ClassV) -> Option<Seq<char>> {
    if decls {
        |c: ClassV| class_ffi(c)
    } else {
        |c: ClassV| class_wrapper(c)
    }
}

/// The foreign declarations (`decls`) or the wrappers of every class, in declaration order.
pub fn emit_classes(models: &Vec<ClassModel>, decls: bool) -> (r: Option<String>)
    requires
        decls ==> forall|j: int| 0 <= j < models@.len() ==> class_valid(#[trigger] models_view(models@)[j]),
    ensures
        opt_view(r) == concat_all(models_view(models@), class_text(decls)),
{
    let ghost mv = models_view(models@);
    let mut out = String::new();
    let mut i: usize = 0;
    while i < models.len()
        invariant
            0 <= i <= models@.len(),
            mv == models_view(models@),
            decls ==> forall|j: int| 0 <= j < mv.len() ==> class_valid(#[trigger] mv[j]),
            concat_all(mv.subrange(0, i as int), class_text(decls)) == Some(out@),
        decreases models@.len() - i,
    {
        assert(decls ==> class_valid(mv[i as int]));
        let part = if decls { generate_ffi_block(&models[i]) } else { generate_wrapper_block(&models[i]) };
        proof {
            let pre = mv.subrange(0, i + 1);
            assert(pre.drop_last() =~= mv.subrange(0, i as int));
            assert(pre.last() == models@[i as int]@);
        }
        match part {
            Some(p) => out.append(p.as_str()),
            None => {
                proof {
                    lemma_concat_all_none(mv, class_text(decls), i + 1);
                }
                return None;
            },
        }
        i = i + 1;
    }
    assert(mv.subrange(0, i as int) =~= mv);
    Some(out)
}

pub open spec fn bridge_includes(ps: Seq<Seq<char>>) -> Seq<char>
    decreases ps.len(),
{
    if ps.len() == 0 {
        Seq::empty()
    } else {
        bridge_includes(ps.drop_last()) + "include!(\""@ + ps.last() + "\");\n"@
    }
}

fn emit_bridge_includes(includes: &Vec<String>, out: &mut String)
    ensures
        final(out)@ == old(out)@ + bridge_includes(strings_view(includes@)),
{
    let ghost start = out@;
    let ghost sv = strings_view(includes@);
    let mut i: usize = 0;
    while i < includes.len()
        invariant
            0 <= i <= includes@.len(),
            sv == strings_view(includes@),
            out@ == start + bridge_includes(sv.subrange(0, i as int)),
        decreases includes@.len() - i,
    {
        out.append("include!(\"");
        out.append(includes[i].as_str());
        out.append("\");\n");
        proof {
            let pre = sv.subrange(0, i + 1);
            assert(pre.drop_last() =~= sv.subrange(0, i as int));
            assert(pre.last() == includes@[i as int]@);
        }
        i = i + 1;
    }
    assert(sv.subrange(0, i as int) =~= sv);
}

/// The host-language output: the handle family, one bridge module holding the
/// foreign declarations of every class and container instantiation, then the
/// wrapper of every class and container instantiation. None where some type
/// has no form in one of them.
pub open spec fn rust_output(
    includes: Seq<Seq<char>>,
    ms: Seq<ClassV>,
    vecs: Seq<Ty>,
    maps: Seq<Ty>,
) -> Option<Seq<char>> {
    {
        match (
            concat_all(ms, class_text(true)),
            concat_all(vecs, entry_text(EntryText::VecDecls)),
            concat_all(maps, entry_text(EntryText::MapDecls)),
            concat_all(ms, class_text(false)),
            concat_all(vecs, entry_text(EntryText::VecWrapper)),
            concat_all(maps, entry_text(EntryText::MapWrapper)),
        ) {
            (Some(cf), Some(vf), Some(mf), Some(cw), Some(vw), Some(mw)) => Some(prelude()
                + "#[cxx::bridge]\nmod ffi {\nunsafe extern \"C++\" {\n"@ + bridge_includes(includes)
                + "include!(\"justcxx.hh\");\n"@ + cf + vf + mf + "}\n}\n"@ + cw + vw + mw),
            _ => None,
        }
    }
}

/// The host-language output for `ctx`.
pub fn generate_rust(ctx: &BindContext) -> (r: Option<String>)
    requires
        ctx_ok(models_view(ctx.models@), types_view(ctx.vec_defs@), types_view(ctx.map_defs@)),
    ensures
        opt_view(r) == rust_output(
            strings_view(ctx.includes@),
            models_view(ctx.models@),
            types_view(ctx.vec_defs@),
            types_view(ctx.map_defs@),
        ),
{
    let cf = emit_classes(&ctx.models, true);
    let vf = emit_entries(&ctx.vec_defs, EntryText::VecDecls);
    let mf = emit_entries(&ctx.map_defs, EntryText::MapDecls);
    let cw = emit_classes(&ctx.models, false);
    let vw = emit_entries(&ctx.vec_defs, EntryText::VecWrapper);
    let mw = emit_entries(&ctx.map_defs, EntryText::MapWrapper);
    match (cf, vf, mf, cw, vw, mw) {
        (Some(cf), Some(vf), Some(mf), Some(cw), Some(vw), Some(mw)) => {
            let mut out = String::new();
            push_prelude(&mut out);
            out.append("#[cxx::bridge]\nmod ffi {\nunsafe extern \"C++\" {\n");
            emit_bridge_includes(&ctx.includes, &mut out);
            out.append("include!(\"justcxx.hh\");\n");
            out.append(cf.as_str());
            out.append(vf.as_str());
            out.append(mf.as_str());
            out.append("}\n}\n");
            out.append(cw.as_str());
            out.append(vw.as_str());
            out.append(mw.as_str());
            Some(out)
        },
        _ => None,
    }
}

} // verus!
