use vstd::prelude::*;
use crate::types::Ty;
use crate::model::{field_has_setter, field_kind_of, methods_view, types_view, BindItem, ClassV, FieldKind, FieldV, MethodV};
use crate::registry::{registry_ok, registry_set, vecs_of, all_types, vectors_in};
use crate::shim::{
    class_shim, exposed_fields, exposed_methods, exposer_class, field_getter_macro, field_shim, macro_args2,
    shim_target, using_line,
};
use crate::preprocess::{any_protected_field, any_protected_method, class_index, is_protected_method, merged};
use crate::ffi::{field_ffi, field_getter, field_getter_type};
use crate::wrapper::{field_wrapper, field_getter_wrapper, field_setter_wrapper, iter_struct};
use crate::types::handle_from;
use crate::ffi::ffi_ret;
use crate::containers::map_iter_struct;
use crate::wrapper::{ret_body, ret_sig};

verus! {

/// A container type that occurs anywhere in the models, however often, has
/// exactly one entry in a registry built for them.
pub proof fn lemma_registry_single_entry(ms: Seq<ClassV>, vecs: Seq<crate::types::TypeKind>, x: Ty)
    requires
        registry_ok(vecs),
        registry_set(vecs) == vecs_of(all_types(ms)),
        vecs_of(all_types(ms)).contains(x),
    ensures
        exists|k: int| 0 <= k < vecs.len() && vecs[k]@ == x,
        forall|a: int, b: int| 0 <= a < vecs.len() && 0 <= b < vecs.len() && vecs[a]@ == x && vecs[b]@ == x ==> a == b,
{
    assert(types_view(vecs).contains(x));
    let k = choose|k: int| 0 <= k < types_view(vecs).len() && types_view(vecs)[k] == x;
    assert(vecs[k]@ == x);
    assert forall|a: int, b: int| 0 <= a < vecs.len() && 0 <= b < vecs.len() && vecs[a]@ == x && vecs[b]@ == x implies a == b by {
        if a != b {
            assert(types_view(vecs)[a] == types_view(vecs)[b]);
        }
    }
}

/// A readonly field gets only its getter in each of the three outputs: no
/// setter macro in the shim, no setter declaration, no setter wrapper.
pub proof fn lemma_readonly_has_no_setter(c: Seq<char>, exposer: bool, f: FieldV)
    requires
        f.is_readonly,
    ensures
        !field_has_setter(f),
        field_shim(c, f) == field_getter_macro(f) + macro_args2(c, f.name),
        field_getter_type(f.ty, true).0 is Some ==> field_ffi(c, exposer, f) == Some(field_getter(
            c,
            (if exposer { c + "_Exposer"@ } else { c }) + "_get_"@ + f.name,
            c + "_get_"@ + f.name,
            field_getter_type(f.ty, true).0.unwrap(),
            field_getter_type(f.ty, true).1,
        )),
        field_wrapper(c, f) is Some ==> field_wrapper(c, f).unwrap().1 == Seq::<char>::empty(),
{
    reveal(field_ffi);
    assert(field_shim(c, f) =~= field_getter_macro(f) + macro_args2(c, f.name));
}

/// A plain value field that is not readonly gets a getter and a setter over
/// the same native field in every output, which is what a round trip of
/// `set` then `get` goes through.
pub proof fn lemma_value_field_round_trip(c: Seq<char>, f: FieldV)
    requires
        !f.is_readonly,
        field_kind_of(f.ty) is Val,
    ensures
        field_has_setter(f),
        field_shim(c, f) == "DEFINE_VAL"@ + macro_args2(c, f.name) + "DEFINE_VAL_SET"@ + macro_args2(c, f.name),
        field_wrapper(c, f) is Some ==> field_wrapper(c, f).unwrap() == (
            field_getter_wrapper(c, f).unwrap(),
            field_setter_wrapper(c, f).unwrap(),
        ),
{
}

/// A class without protected members gets no exposer and is addressed under its own name.
pub proof fn lemma_no_exposer_without_protected(c: ClassV)
    requires
        !c.needs_exposer,
    ensures
        shim_target(c) == c.name,
        class_shim(c) is Some ==> class_shim(c).unwrap() == crate::shim::fields_shim(c.name, c.fields)
            + crate::shim::methods_shim(c.name, c.methods).unwrap(),
{
    if class_shim(c) is Some {
        assert(Seq::<char>::empty() + crate::shim::fields_shim(c.name, c.fields)
            =~= crate::shim::fields_shim(c.name, c.fields));
    }
}

/// Whether `p` appears as a contiguous piece of `t`.
pub open spec fn occurs(t: Seq<char>, p: Seq<char>) -> bool {
    exists|i: int| 0 <= i && i + p.len() <= t.len() && #[trigger] t.subrange(i, i + p.len()) == p
}

proof fn lemma_occurs_extend(a: Seq<char>, b: Seq<char>, p: Seq<char>)
    ensures
        occurs(a, p) ==> occurs(a + b, p),
        occurs(b, p) ==> occurs(a + b, p),
{
    if occurs(a, p) {
        let i = choose|i: int| 0 <= i && i + p.len() <= a.len() && #[trigger] a.subrange(i, i + p.len()) == p;
        assert((a + b).subrange(i, i + p.len()) =~= a.subrange(i, i + p.len()));
    }
    if occurs(b, p) {
        let i = choose|i: int| 0 <= i && i + p.len() <= b.len() && #[trigger] b.subrange(i, i + p.len()) == p;
        assert((a + b).subrange(a.len() + i, a.len() + i + p.len()) =~= b.subrange(i, i + p.len()));
    }
}

proof fn lemma_exposed_field(n: Seq<char>, fs: Seq<FieldV>, k: int)
    requires
        0 <= k < fs.len(),
        fs[k].is_protected,
    ensures
        occurs(exposed_fields(n, fs), using_line(n, fs[k].name)),
    decreases fs.len(),
{
    let pre = exposed_fields(n, fs.drop_last());
    if k == fs.len() - 1 {
        let u = using_line(n, fs[k].name);
        assert((pre + u).subrange(pre.len() as int, (pre.len() + u.len()) as int) =~= u);
    } else {
        lemma_exposed_field(n, fs.drop_last(), k);
        if fs.last().is_protected {
            lemma_occurs_extend(pre, using_line(n, fs.last().name), using_line(n, fs[k].name));
        }
    }
}

proof fn lemma_exposed_method(n: Seq<char>, ms: Seq<MethodV>, k: int)
    requires
        0 <= k < ms.len(),
        is_protected_method(ms[k]),
    ensures
        occurs(exposed_methods(n, ms), using_line(n, ms[k]->Method_cpp_name)),
    decreases ms.len(),
{
    let pre = exposed_methods(n, ms.drop_last());
    if k == ms.len() - 1 {
        let u = using_line(n, ms[k]->Method_cpp_name);
        assert((pre + u).subrange(pre.len() as int, (pre.len() + u.len()) as int) =~= u);
    } else {
        lemma_exposed_method(n, ms.drop_last(), k);
        if is_protected_method(ms.last()) {
            lemma_occurs_extend(pre, using_line(n, ms.last()->Method_cpp_name), using_line(n, ms[k]->Method_cpp_name));
        }
    }
}

/// Every protected field and method of a class that needs an exposer is
/// re-exposed by a `using` line of the exposer under its own name, and
/// the shim of the class addresses the exposer.
pub proof fn lemma_exposer_reaches_protected(c: ClassV)
    requires
        c.needs_exposer,
    ensures
        shim_target(c) == c.name + "_Exposer"@,
        forall|k: int| 0 <= k < c.fields.len() && c.fields[k].is_protected
            ==> occurs(exposer_class(c), using_line(c.name, c.fields[k].name)),
        forall|k: int| 0 <= k < c.methods.len() && is_protected_method(c.methods[k])
            ==> occurs(exposer_class(c), using_line(c.name, c.methods[k]->Method_cpp_name)),
        class_shim(c) is Some ==> class_shim(c).unwrap() == exposer_class(c)
            + crate::shim::fields_shim(shim_target(c), c.fields)
            + crate::shim::methods_shim(shim_target(c), c.methods).unwrap(),
{
    let n = c.name;
    let head = "class "@ + n + "_Exposer : public "@ + n + " {\n"@ + "public:\n"@ + using_line(n, n);
    let ef = exposed_fields(n, c.fields);
    let em = exposed_methods(n, c.methods);
    let tail = "};\n\n"@;
    assert(exposer_class(c) == head + ef + em + tail);
    assert forall|k: int| 0 <= k < c.fields.len() && c.fields[k].is_protected
        implies occurs(exposer_class(c), using_line(n, c.fields[k].name)) by {
        let u = using_line(n, c.fields[k].name);
        lemma_exposed_field(n, c.fields, k);
        lemma_occurs_extend(head, ef, u);
        lemma_occurs_extend(head + ef, em, u);
        lemma_occurs_extend(head + ef + em, tail, u);
    }
    assert forall|k: int| 0 <= k < c.methods.len() && is_protected_method(c.methods[k])
        implies occurs(exposer_class(c), using_line(n, c.methods[k]->Method_cpp_name)) by {
        let u = using_line(n, c.methods[k]->Method_cpp_name);
        lemma_exposed_method(n, c.methods, k);
        lemma_occurs_extend(head + ef, em, u);
        lemma_occurs_extend(head + ef + em, tail, u);
    }
}

/// After merging, a model needs an exposer exactly when one of its fields
/// or methods is protected.
pub proof fn lemma_exposer_iff_protected(items: Seq<BindItem>)
    requires
        merged(items) is Ok,
    ensures
        forall|j: int| 0 <= j < merged(items)->Ok_0.len() ==> (#[trigger] merged(items)->Ok_0[j]).needs_exposer
            == (any_protected_field(merged(items)->Ok_0[j].fields)
                || any_protected_method(merged(items)->Ok_0[j].methods)),
    decreases items.len(),
{
    if items.len() > 0 {
        let rest = items.drop_last();
        lemma_exposer_iff_protected(rest);
        let ms = merged(rest)->Ok_0;
        let r = merged(items)->Ok_0;
        match items.last() {
            BindItem::Include(_) => {},
            BindItem::Struct(st) => {
                assert forall|j: int| 0 <= j < r.len() implies (#[trigger] r[j]).needs_exposer
                    == (any_protected_field(r[j].fields) || any_protected_method(r[j].methods)) by {
                    if j < ms.len() {
                        assert(r[j] == ms[j]);
                    }
                }
            },
            BindItem::Impl(d) => {
                let i = class_index(ms, d.target@);
                let added = methods_view(d.methods@);
                assert forall|j: int| 0 <= j < r.len() implies (#[trigger] r[j]).needs_exposer
                    == (any_protected_field(r[j].fields) || any_protected_method(r[j].methods)) by {
                    if j == i {
                        let all = ms[i].methods + added;
                        assert(r[j].methods == all);
                        if any_protected_method(all) {
                            let k = choose|k: int| 0 <= k < all.len() && is_protected_method(all[k]);
                            if k < ms[i].methods.len() {
                                assert(is_protected_method(ms[i].methods[k]));
                            } else {
                                assert(is_protected_method(added[k - ms[i].methods.len()]));
                            }
                        }
                        if any_protected_method(ms[i].methods) {
                            let k = choose|k: int| 0 <= k < ms[i].methods.len() && is_protected_method(ms[i].methods[k]);
                            assert(is_protected_method(all[k]));
                        }
                        if any_protected_method(added) {
                            let k = choose|k: int| 0 <= k < added.len() && is_protected_method(added[k]);
                            assert(is_protected_method(all[ms[i].methods.len() + k]));
                        }
                    }
                }
            },
        }
    }
}

/// The sequence type emitted for an iterator reads the native context once
/// per step and ends exactly when the context reports exhaustion with a
/// null item: the step that sees null yields `None`, and every other step
/// yields the item it read.
pub proof fn lemma_emitted_iterator_ends_on_null(c: Seq<char>, m: Seq<char>, item: Seq<char>)
    ensures
        occurs(iter_struct(c, m, item), "(self.ctx.pin_mut()); if ret_ptr.is_null() { None } else { Some("@),
{
    reveal(iter_struct);
    let sn = c + "_"@ + m + "_Iter"@;
    let p = "(self.ctx.pin_mut()); if ret_ptr.is_null() { None } else { Some("@;
    let left = "#[allow(non_camel_case_types)]\npub struct "@ + sn
        + "<'a, M: justcxx::Mode> { ctx: cxx::UniquePtr<ffi::"@ + c + "_"@ + m + "_IterCtx"@
        + ">, _marker: std::marker::PhantomData<(&'a (), M)>, }\n"@
        + "impl<'a, M: justcxx::Mode> Iterator for "@ + sn + "<'a, M> { type Item = "@ + item
        + "; fn next(&mut self) -> Option<Self::Item> { unsafe { let ret_ptr = ffi::"@
        + c + "_"@ + m + "_iter_next"@;
    let h = handle_from("ret_ptr"@);
    let tail = ") } } } }\n"@;
    assert(iter_struct(c, m, item) == left + p + h + tail);
    assert(p.subrange(0int, 0int + p.len()) =~= p);
    assert(occurs(p, p));
    lemma_occurs_extend(left, p, p);
    lemma_occurs_extend(left + p, h, p);
    lemma_occurs_extend(left + p + h, tail, p);
}

/// An `Option` of a primitive as a result crosses the boundary as a
/// failure-signalling native result and reaches the caller as `Some(v)` for
/// a native value `v` and as `None` for the native failure signal.
pub proof fn lemma_optional_primitive_return(n: Seq<char>, call: Seq<char>)
    ensures
        ffi_ret(Some(Ty::Optional(Box::new(Ty::Primitive(n))))) == Some(" -> "@ + ("Result<"@ + n + ">"@)),
        ret_sig(Some(Ty::Optional(Box::new(Ty::Primitive(n))))) == Some(" -> "@ + ("Option<"@ + n + ">"@)),
        ret_body(Some(Ty::Optional(Box::new(Ty::Primitive(n)))), call)
            == "match "@ + call + " { Ok(val) => Some({ "@ + "val"@ + " }), Err(_) => None }"@,
{
    reveal_with_fuel(crate::types::ffi_type, 2);
    reveal_with_fuel(crate::types::wrapper_ret_type, 2);
    reveal_with_fuel(crate::types::ret_conversion, 2);
}

/// The sequence type emitted for a map ends with `None` as soon as the
/// native context reports its end, before reading an entry; otherwise each
/// step reads the current key and value, advances the context once, and
/// yields the pair.
pub proof fn lemma_map_iterator_steps_once(name: Seq<char>, key: Seq<char>, val: Seq<char>, mapper: Seq<char>)
    ensures
        occurs(map_iter_struct(name, key, val, mapper), "_iter_is_end(self.ctx.pin_mut()) { return None; } let k = ffi::"@),
        occurs(map_iter_struct(name, key, val, mapper), "_iter_step(self.ctx.pin_mut()); Some((k, v)) } } }\n"@),
{
    reveal(map_iter_struct);
    let p = "_iter_is_end(self.ctx.pin_mut()) { return None; } let k = ffi::"@;
    let q = "_iter_step(self.ctx.pin_mut()); Some((k, v)) } } }\n"@;
    let left = "#[allow(non_camel_case_types)]\npub struct "@ + name + "_Iter<'a, M: justcxx::Mode> { ctx: cxx::UniquePtr<ffi::"@ + name + "_IterCtx>, _marker: std::marker::PhantomData<(&'a (), M)>, }\nimpl<'a, M: justcxx::Mode> Iterator for "@ + name + "_Iter<'a, M> { type Item = ("@ + key + ", "@ + val + "); fn next(&mut self) -> Option<Self::Item> { unsafe { if ffi::"@ + name;
    let r1 = "_iter_key(self.ctx.pin_mut()); let v_raw = ffi::"@;
    let r2 = "_iter_val(self.ctx.pin_mut()); let v = { "@;
    let r3 = " }; ffi::"@;
    let mid = left + p + name + r1 + name + r2 + mapper + r3 + name;
    assert(map_iter_struct(name, key, val, mapper) == mid + q);
    assert(p.subrange(0int, 0int + p.len()) =~= p);
    assert(q.subrange(0int, 0int + q.len()) =~= q);
    lemma_occurs_extend(left, p, p);
    lemma_occurs_extend(left + p, name, p);
    lemma_occurs_extend(left + p + name, r1, p);
    lemma_occurs_extend(left + p + name + r1, name, p);
    lemma_occurs_extend(left + p + name + r1 + name, r2, p);
    lemma_occurs_extend(left + p + name + r1 + name + r2, mapper, p);
    lemma_occurs_extend(left + p + name + r1 + name + r2 + mapper, r3, p);
    lemma_occurs_extend(left + p + name + r1 + name + r2 + mapper + r3, name, p);
    lemma_occurs_extend(mid, q, p);
    lemma_occurs_extend(mid, q, q);
}

} // verus!
