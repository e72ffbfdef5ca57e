use vstd::prelude::*;
use crate::types::{flat_name, nameable, Ty, TypeKind};
use crate::model::{types_view, ClassModel, ClassV, FieldV, MethodV, ArgV, MethodDef, models_view};

verus! {

broadcast use crate::text::lemma_seq_assoc;

/// Every vector type that occurs in `t`, `t` itself included.
pub open spec fn vectors_in(t: Ty) -> Set<Ty>
    decreases t,
{
    match t {
        Ty::Vector(i, _) => set![t].union(vectors_in(*i)),
        Ty::Mapping(k, v, _) => vectors_in(*k).union(vectors_in(*v)),
        Ty::Optional(i) | Ty::Fallible(i) | Ty::Reference(i, _) | Ty::UniquePtr(i) | Ty::Slice(i) => vectors_in(*i),
        Ty::Primitive(_) | Ty::Str | Ty::Object(_) => Set::empty(),
    }
}

/// Every map type that occurs in `t`, `t` itself included.
pub open spec fn maps_in(t: Ty) -> Set<Ty>
    decreases t,
{
    match t {
        Ty::Vector(i, _) => maps_in(*i),
        Ty::Mapping(k, v, _) => set![t].union(maps_in(*k)).union(maps_in(*v)),
        Ty::Optional(i) | Ty::Fallible(i) | Ty::Reference(i, _) | Ty::UniquePtr(i) | Ty::Slice(i) => maps_in(*i),
        Ty::Primitive(_) | Ty::Str | Ty::Object(_) => Set::empty(),
    }
}

/// A registry holds each type at most once.
pub open spec fn registry_ok(v: Seq<TypeKind>) -> bool {
    types_view(v).no_duplicates()
}

pub open spec fn registry_set(v: Seq<TypeKind>) -> Set<Ty> {
    types_view(v).to_set()
}

/// Adds `t` to the registry unless a structurally equal type is already there.
pub fn insert_unique(reg: &mut Vec<TypeKind>, t: &TypeKind)
    requires
        registry_ok(old(reg)@),
    ensures
        registry_ok(final(reg)@),
        registry_set(final(reg)@) == registry_set(old(reg)@).insert(t@),
{
    let mut i: usize = 0;
    while i < reg.len()
        invariant
            0 <= i <= reg@.len(),
            reg@ == old(reg)@,
            registry_ok(reg@),
            forall|k: int| 0 <= k < i ==> reg@[k]@ != t@,
        decreases reg@.len() - i,
    {
        if reg[i].same_as(t) {
            proof {
                assert(types_view(reg@)[i as int] == t@);
                assert(registry_set(reg@).insert(t@) =~= registry_set(reg@));
            }
            return;
        }
        i = i + 1;
    }
    let ghost before = reg@;
    reg.push(t.duplicate());
    proof {
        assert(types_view(reg@) =~= types_view(before).push(t@));
        assert(!types_view(before).contains(t@)) by {
            if types_view(before).contains(t@) {
                let k = choose|k: int| 0 <= k < types_view(before).len() && types_view(before)[k] == t@;
                assert(before[k]@ == t@);
            }
        }
        assert forall|a: int, b: int|
            0 <= a < types_view(reg@).len() && 0 <= b < types_view(reg@).len() && a != b
            implies types_view(reg@)[a] != types_view(reg@)[b] by {
            if a < before.len() && b < before.len() {
                assert(types_view(before)[a] != types_view(before)[b]);
            } else if a < before.len() {
                assert(types_view(before).contains(types_view(before)[a]));
            } else if b < before.len() {
                assert(types_view(before).contains(types_view(before)[b]));
            }
        }
        assert(registry_set(reg@) =~= registry_set(before).insert(t@)) by {
            assert forall|x: Ty| registry_set(reg@).contains(x) <==> registry_set(before).insert(t@).contains(x) by {
                assert(types_view(reg@)[before.len() as int] == t@);
                if registry_set(before).contains(x) {
                    let k = choose|k: int| 0 <= k < types_view(before).len() && types_view(before)[k] == x;
                    assert(types_view(reg@)[k] == x);
                }
                if registry_set(reg@).contains(x) {
                    let k = choose|k: int| 0 <= k < types_view(reg@).len() && types_view(reg@)[k] == x;
                    if k < before.len() {
                        assert(types_view(before)[k] == x);
                    }
                }
            }
        }
    }
}

/// Walks `ty` and records every vector and map instantiation in it.
pub fn collect_recursive(ty: &TypeKind, vecs: &mut Vec<TypeKind>, maps: &mut Vec<TypeKind>)
    requires
        registry_ok(old(vecs)@),
        registry_ok(old(maps)@),
    ensures
        registry_ok(final(vecs)@),
        registry_ok(final(maps)@),
        registry_set(final(vecs)@) == registry_set(old(vecs)@).union(vectors_in(ty@)),
        registry_set(final(maps)@) == registry_set(old(maps)@).union(maps_in(ty@)),
    decreases ty,
{
    let ghost v0 = registry_set(vecs@);
    let ghost m0 = registry_set(maps@);
    match ty {
        TypeKind::Vector { inner, .. } => {
            insert_unique(vecs, ty);
            collect_recursive(inner, vecs, maps);
            assert(registry_set(vecs@) =~= v0.union(vectors_in(ty@)));
            assert(registry_set(maps@) =~= m0.union(maps_in(ty@)));
        },
        TypeKind::Mapping { key, value, .. } => {
            insert_unique(maps, ty);
            collect_recursive(key, vecs, maps);
            collect_recursive(value, vecs, maps);
            assert(registry_set(vecs@) =~= v0.union(vectors_in(ty@)));
            assert(registry_set(maps@) =~= m0.union(maps_in(ty@)));
        },
        TypeKind::Reference { inner, .. } => {
            collect_recursive(inner, vecs, maps);
        },
        TypeKind::Option(inner) | TypeKind::Result(inner) | TypeKind::UniquePtr(inner)
        | TypeKind::Slice(inner) => {
            collect_recursive(inner, vecs, maps);
        },
        TypeKind::Primitive(_) | TypeKind::String | TypeKind::Object(_) => {
            assert(registry_set(vecs@) =~= v0.union(vectors_in(ty@)));
            assert(registry_set(maps@) =~= m0.union(maps_in(ty@)));
        },
    }
}

/// The union of the vector instantiations of every type in `ts`.
pub open spec fn vecs_of(ts: Seq<Ty>) -> Set<Ty>
    decreases ts.len(),
{
    if ts.len() == 0 {
        Set::empty()
    } else {
        vecs_of(ts.drop_last()).union(vectors_in(ts.last()))
    }
}

/// The union of the map instantiations of every type in `ts`.
pub open spec fn maps_of(ts: Seq<Ty>) -> Set<Ty>
    decreases ts.len(),
{
    if ts.len() == 0 {
        Set::empty()
    } else {
        maps_of(ts.drop_last()).union(maps_in(ts.last()))
    }
}

pub open spec fn arg_types(a: Seq<ArgV>) -> Seq<Ty> {
    a.map_values(|x: ArgV| x.ty)
}

pub open spec fn field_types(f: Seq<FieldV>) -> Seq<Ty> {
    f.map_values(|x: FieldV| x.ty)
}

/// The types that a method declaration mentions: arguments, result, yielded items.
pub open spec fn method_types(m: MethodV) -> Seq<Ty> {
    match m {
        MethodV::Ctor { args, .. } => arg_types(args),
        MethodV::Iter { yield_ty, .. } => seq![yield_ty],
        MethodV::Method { args, ret_ty, .. } => arg_types(args) + match ret_ty {
            Some(r) => seq![r],
            None => Seq::empty(),
        },
    }
}

pub open spec fn method_list_types(ms: Seq<MethodV>) -> Seq<Ty>
    decreases ms.len(),
{
    if ms.len() == 0 {
        Seq::empty()
    } else {
        method_list_types(ms.drop_last()) + method_types(ms.last())
    }
}

pub open spec fn class_types(c: ClassV) -> Seq<Ty> {
    field_types(c.fields) + method_list_types(c.methods)
}

/// Every type that the models mention, in model order.
pub open spec fn all_types(ms: Seq<ClassV>) -> Seq<Ty>
    decreases ms.len(),
{
    if ms.len() == 0 {
        Seq::empty()
    } else {
        all_types(ms.drop_last()) + class_types(ms.last())
    }
}

fn push_arg_types(args: &Vec<crate::model::Arg>, out: &mut Vec<TypeKind>)
    ensures
        types_view(final(out)@) == types_view(old(out)@) + arg_types(crate::model::args_view(args@)),
{
    let ghost start = types_view(out@);
    let mut i: usize = 0;
    while i < args.len()
        invariant
            0 <= i <= args@.len(),
            types_view(out@) == start + arg_types(crate::model::args_view(args@)).subrange(0, i as int),
        decreases args@.len() - i,
    {
        let ghost before = out@;
        out.push(args[i].ty.duplicate());
        proof {
            assert(types_view(out@) =~= types_view(before).push(args@[i as int].ty@));
            assert(arg_types(crate::model::args_view(args@)).subrange(0, i + 1) =~=
                arg_types(crate::model::args_view(args@)).subrange(0, i as int).push(args@[i as int].ty@));
            assert(types_view(out@) =~= start + arg_types(crate::model::args_view(args@)).subrange(0, i + 1));
        }
        i = i + 1;
    }
    assert(arg_types(crate::model::args_view(args@)).subrange(0, i as int) =~= arg_types(crate::model::args_view(args@)));
}

fn push_method_types(m: &MethodDef, out: &mut Vec<TypeKind>)
    ensures
        types_view(final(out)@) == types_view(old(out)@) + method_types(m@),
{
    let ghost start = types_view(out@);
    match m {
        MethodDef::Ctor(c) => {
            push_arg_types(&c.args, out);
        },
        MethodDef::Iter(it) => {
            out.push(it.yield_ty.duplicate());
            assert(types_view(out@) =~= start + method_types(m@));
        },
        MethodDef::Method(f) => {
            push_arg_types(&f.args, out);
            let ghost mid = types_view(out@);
            match &f.ret_ty {
                Some(r) => {
                    out.push(r.duplicate());
                    assert(types_view(out@) =~= mid.push(r@));
                },
                None => {},
            }
            assert(types_view(out@) =~= start + method_types(m@));
        },
    }
}

fn push_class_types(c: &ClassModel, out: &mut Vec<TypeKind>)
    ensures
        types_view(final(out)@) == types_view(old(out)@) + class_types(c@),
{
    let ghost start = types_view(out@);
    let mut i: usize = 0;
    while i < c.fields.len()
        invariant
            0 <= i <= c.fields@.len(),
            types_view(out@) == start + field_types(c@.fields).subrange(0, i as int),
        decreases c.fields@.len() - i,
    {
        let ghost before = out@;
        out.push(c.fields[i].ty.duplicate());
        proof {
            assert(types_view(out@) =~= types_view(before).push(c.fields@[i as int].ty@));
            assert(field_types(c@.fields).subrange(0, i + 1) =~=
                field_types(c@.fields).subrange(0, i as int).push(c.fields@[i as int].ty@));
            assert(types_view(out@) =~= start + field_types(c@.fields).subrange(0, i + 1));
        }
        i = i + 1;
    }
    assert(field_types(c@.fields).subrange(0, i as int) =~= field_types(c@.fields));
    let ghost mid = types_view(out@);
    let mut j: usize = 0;
    while j < c.methods.len()
        invariant
            0 <= j <= c.methods@.len(),
            types_view(out@) == mid + method_list_types(c@.methods.subrange(0, j as int)),
        decreases c.methods@.len() - j,
    {
        let ghost before = types_view(out@);
        push_method_types(&c.methods[j], out);
        proof {
            let pre = c@.methods.subrange(0, j + 1);
            assert(pre.drop_last() =~= c@.methods.subrange(0, j as int));
            assert(pre.last() == c.methods@[j as int]@);
            assert(types_view(out@) =~= mid + method_list_types(pre));
        }
        j = j + 1;
    }
    assert(c@.methods.subrange(0, j as int) =~= c@.methods);
    assert(types_view(out@) =~= start + class_types(c@));
}

/// Every type that the models mention, in model order.
pub fn all_model_types(models: &Vec<ClassModel>) -> (r: Vec<TypeKind>)
    ensures
        types_view(r@) == all_types(models_view(models@)),
{
    let mut out: Vec<TypeKind> = Vec::new();
    let mut i: usize = 0;
    while i < models.len()
        invariant
            0 <= i <= models@.len(),
            types_view(out@) == all_types(models_view(models@).subrange(0, i as int)),
        decreases models@.len() - i,
    {
        push_class_types(&models[i], &mut out);
        proof {
            let pre = models_view(models@).subrange(0, i + 1);
            assert(pre.drop_last() =~= models_view(models@).subrange(0, i as int));
        }
        i = i + 1;
    }
    assert(models_view(models@).subrange(0, i as int) =~= models_view(models@));
    assert(types_view(out@) == all_types(models_view(models@)));
    out
}

/// The vector and map instantiations that the models need, each once.
pub fn collect_containers(models: &Vec<ClassModel>) -> (r: (Vec<TypeKind>, Vec<TypeKind>))
    ensures
        registry_ok(r.0@),
        registry_ok(r.1@),
        registry_set(r.0@) == vecs_of(all_types(models_view(models@))),
        registry_set(r.1@) == maps_of(all_types(models_view(models@))),
{
    let all = all_model_types(models);
    let mut vecs: Vec<TypeKind> = Vec::new();
    let mut maps: Vec<TypeKind> = Vec::new();
    proof {
        assert(registry_set(vecs@) =~= Set::empty());
        assert(registry_set(maps@) =~= Set::empty());
    }
    let mut i: usize = 0;
    while i < all.len()
        invariant
            0 <= i <= all@.len(),
            registry_ok(vecs@),
            registry_ok(maps@),
            registry_set(vecs@) == vecs_of(types_view(all@).subrange(0, i as int)),
            registry_set(maps@) == maps_of(types_view(all@).subrange(0, i as int)),
        decreases all@.len() - i,
    {
        collect_recursive(&all[i], &mut vecs, &mut maps);
        proof {
            let pre = types_view(all@).subrange(0, i + 1);
            assert(pre.drop_last() =~= types_view(all@).subrange(0, i as int));
        }
        i = i + 1;
    }
    assert(types_view(all@).subrange(0, i as int) =~= types_view(all@));
    (vecs, maps)
}

// ---------------------------------------------------------------- order

/// Lexicographic order of texts by code point.
pub open spec fn text_lt(a: Seq<char>, b: Seq<char>) -> bool
    decreases a.len(),
{
    if a.len() == 0 {
        b.len() > 0
    } else if b.len() == 0 {
        false
    } else if a[0] != b[0] {
        (a[0] as int) < (b[0] as int)
    } else {
        text_lt(a.drop_first(), b.drop_first())
    }
}

pub open spec fn text_le(a: Seq<char>, b: Seq<char>) -> bool {
    a == b || text_lt(a, b)
}

pub proof fn lemma_text_lt_trans(a: Seq<char>, b: Seq<char>, c: Seq<char>)
    requires
        text_lt(a, b),
        text_lt(b, c),
    ensures
        text_lt(a, c),
    decreases a.len(),
{
    if a.len() > 0 && b.len() > 0 && c.len() > 0 && a[0] == b[0] && b[0] == c[0] {
        lemma_text_lt_trans(a.drop_first(), b.drop_first(), c.drop_first());
    }
}

pub proof fn lemma_text_lt_total(a: Seq<char>, b: Seq<char>)
    ensures
        a == b || text_lt(a, b) || text_lt(b, a),
        !(text_lt(a, b) && text_lt(b, a)),
        !text_lt(a, a),
    decreases a.len(),
{
    if a.len() > 0 && b.len() > 0 {
        if a[0] == b[0] {
            lemma_text_lt_total(a.drop_first(), b.drop_first());
            if a.drop_first() == b.drop_first() {
                assert(a =~= seq![a[0]] + a.drop_first());
                assert(b =~= seq![b[0]] + b.drop_first());
            }
        } else {
        }
    } else if a.len() == 0 && b.len() == 0 {
        assert(a =~= b);
    }
    if a.len() > 0 {
        lemma_text_lt_total(a.drop_first(), a.drop_first());
    }
}

/// Whether `a` comes strictly before `b`.
pub fn text_less(a: &str, b: &str) -> (r: bool)
    ensures
        r == text_lt(a@, b@),
{
    let n = a.unicode_len();
    let m = b.unicode_len();
    let mut i: usize = 0;
    assert(a@.subrange(0, n as int) =~= a@);
    assert(b@.subrange(0, m as int) =~= b@);
    while i < n && i < m
        invariant
            n == a@.len(),
            m == b@.len(),
            0 <= i <= n,
            i <= m,
            text_lt(a@, b@) == text_lt(a@.subrange(i as int, n as int), b@.subrange(i as int, m as int)),
        decreases n - i,
    {
        let x = a.get_char(i);
        let y = b.get_char(i);
        proof {
            let sa = a@.subrange(i as int, n as int);
            let sb = b@.subrange(i as int, m as int);
            assert(sa[0] == x);
            assert(sb[0] == y);
            assert(sa.drop_first() =~= a@.subrange(i + 1, n as int));
            assert(sb.drop_first() =~= b@.subrange(i + 1, m as int));
        }
        if x != y {
            return (x as u32) < (y as u32);
        }
        i = i + 1;
    }
    proof {
        let sa = a@.subrange(i as int, n as int);
        let sb = b@.subrange(i as int, m as int);
        assert(sa.len() == 0 || sb.len() == 0);
    }
    i == n && i < m
}

pub open spec fn sorted_by_flat_name(v: Seq<Ty>) -> bool {
    forall|i: int, j: int| 0 <= i < j < v.len() ==> text_le(flat_name(v[i]), flat_name(v[j]))
}

proof fn lemma_insert_sorted(before: Seq<TypeKind>, k: int, d: TypeKind, v: Seq<TypeKind>, i: int)
    requires
        registry_ok(v),
        0 <= i < v.len(),
        d@ == v[i]@,
        registry_ok(before),
        registry_set(before) == registry_set(v.subrange(0, i)),
        sorted_by_flat_name(types_view(before)),
        all_nameable(types_view(before)),
        nameable(d@),
        0 <= k <= before.len(),
        forall|j: int| 0 <= j < k ==> text_le(#[trigger] flat_name(before[j]@), flat_name(d@)),
        k < before.len() ==> text_lt(flat_name(d@), flat_name(before[k]@)),
    ensures
        registry_ok(before.insert(k, d)),
        registry_set(before.insert(k, d)) == registry_set(v.subrange(0, i + 1)),
        sorted_by_flat_name(types_view(before.insert(k, d))),
        all_nameable(types_view(before.insert(k, d))),
{
    let after = before.insert(k, d);
    before.insert_ensures(k, d);
    let bv = types_view(before);
    let av = types_view(after);
    assert(av.len() == bv.len() + 1);
    assert forall|j: int| 0 <= j < av.len() implies av[j] == (if j < k { bv[j] } else if j == k { d@ } else { bv[j - 1] }) by {
        if j > k {
            assert(after[(j - 1) + 1] == before[j - 1]);
        }
    }
    // d is new: v has no duplicates and d sits at position i of v.
    assert(!bv.contains(d@)) by {
        if bv.contains(d@) {
            let j = choose|j: int| 0 <= j < bv.len() && bv[j] == d@;
            assert(registry_set(before).contains(d@));
            assert(registry_set(v.subrange(0, i)).contains(d@));
            let m = choose|m: int| 0 <= m < types_view(v.subrange(0, i)).len() && types_view(v.subrange(0, i))[m] == d@;
            assert(types_view(v)[m] == types_view(v)[i]);
        }
    }
    assert forall|a: int, b: int| 0 <= a < av.len() && 0 <= b < av.len() && a != b implies av[a] != av[b] by {
        if a != k && b != k {
            let a0 = if a < k { a } else { a - 1 };
            let b0 = if b < k { b } else { b - 1 };
            assert(bv[a0] != bv[b0]);
        } else if a == k {
            let b0 = if b < k { b } else { b - 1 };
            assert(bv.contains(bv[b0]));
        } else {
            let a0 = if a < k { a } else { a - 1 };
            assert(bv.contains(bv[a0]));
        }
    }
    assert(registry_set(after) =~= registry_set(v.subrange(0, i + 1))) by {
        let vs = types_view(v.subrange(0, i));
        let vs1 = types_view(v.subrange(0, i + 1));
        assert(vs1 =~= vs.push(v[i]@));
        assert forall|x: Ty| registry_set(after).contains(x) <==> registry_set(v.subrange(0, i + 1)).contains(x) by {
            if registry_set(after).contains(x) {
                let j = choose|j: int| 0 <= j < av.len() && av[j] == x;
                if j == k {
                    assert(vs1[i] == x);
                } else {
                    let j0 = if j < k { j } else { j - 1 };
                    assert(bv[j0] == x);
                    assert(registry_set(before).contains(x));
                    assert(registry_set(v.subrange(0, i)).contains(x));
                    let m = choose|m: int| 0 <= m < vs.len() && vs[m] == x;
                    assert(vs1[m] == x);
                }
            }
            if registry_set(v.subrange(0, i + 1)).contains(x) {
                let m = choose|m: int| 0 <= m < vs1.len() && vs1[m] == x;
                if m == i {
                    assert(av[k] == x);
                } else {
                    assert(vs[m] == x);
                    assert(registry_set(v.subrange(0, i)).contains(x));
                    assert(registry_set(before).contains(x));
                    let j0 = choose|j0: int| 0 <= j0 < bv.len() && bv[j0] == x;
                    let j = if j0 < k { j0 } else { j0 + 1 };
                    assert(av[j] == x);
                }
            }
        }
    }
    assert forall|a: int, b: int| 0 <= a < b < av.len() implies text_le(flat_name(av[a]), flat_name(av[b])) by {
        if b < k {
            assert(text_le(flat_name(bv[a]), flat_name(bv[b])));
        } else if b == k {
            assert(text_le(flat_name(before[a]@), flat_name(d@)));
        } else if a == k {
            assert(text_lt(flat_name(d@), flat_name(bv[k])));
            if b - 1 > k {
                assert(text_le(flat_name(bv[k]), flat_name(bv[b - 1])));
                if flat_name(bv[k]) != flat_name(bv[b - 1]) {
                    lemma_text_lt_trans(flat_name(d@), flat_name(bv[k]), flat_name(bv[b - 1]));
                }
            }
        } else if a < k {
            assert(text_le(flat_name(before[a]@), flat_name(d@)));
            assert(text_lt(flat_name(d@), flat_name(bv[k])));
            assert(text_le(flat_name(bv[k]), flat_name(bv[b - 1]))) by {
                if b - 1 > k {
                    assert(text_le(flat_name(bv[k]), flat_name(bv[b - 1])));
                }
            }
            if flat_name(bv[a]) != flat_name(d@) {
                lemma_text_lt_trans(flat_name(bv[a]), flat_name(d@), flat_name(bv[k]));
            }
            if flat_name(bv[k]) != flat_name(bv[b - 1]) {
                lemma_text_lt_trans(flat_name(bv[a]), flat_name(bv[k]), flat_name(bv[b - 1]));
            }
        } else {
            assert(text_le(flat_name(bv[a - 1]), flat_name(bv[b - 1])));
        }
    }
}

/// The registry entries in order of their flat names.
pub fn sort_by_flat_name(v: Vec<TypeKind>) -> (r: Vec<TypeKind>)
    requires
        registry_ok(v@),
        all_nameable(types_view(v@)),
    ensures
        all_nameable(types_view(r@)),
        registry_ok(r@),
        registry_set(r@) == registry_set(v@),
        sorted_by_flat_name(types_view(r@)),
{
    let mut out: Vec<TypeKind> = Vec::new();
    let mut i: usize = 0;
    assert(registry_set(out@) =~= registry_set(v@.subrange(0, 0)));
    while i < v.len()
        invariant
            0 <= i <= v@.len(),
            registry_ok(v@),
            registry_ok(out@),
            all_nameable(types_view(v@)),
            all_nameable(types_view(out@)),
            registry_set(out@) == registry_set(v@.subrange(0, i as int)),
            sorted_by_flat_name(types_view(out@)),
        decreases v@.len() - i,
    {
        let x = &v[i];
        assert(nameable(types_view(v@)[i as int]));
        let xn = x.get_flat_name();
        let mut k: usize = 0;
        let mut stop = false;
        while k < out.len() && !stop
            invariant
                0 <= k <= out@.len(),
                all_nameable(types_view(out@)),
                xn@ == flat_name(x@),
                forall|j: int| 0 <= j < k ==> text_le(#[trigger] flat_name(out@[j]@), flat_name(x@)),
                stop ==> k < out@.len() && text_lt(flat_name(x@), flat_name(out@[k as int]@)),
            decreases out@.len() - k + (if stop { 0int } else { 1int }),
        {
            assert(nameable(types_view(out@)[k as int]));
            let yn = out[k].get_flat_name();
            if text_less(xn.as_str(), yn.as_str()) {
                stop = true;
            } else {
                proof {
                    lemma_text_lt_total(xn@, yn@);
                }
                k = k + 1;
            }
        }
        let ghost before = out@;
        let d = x.duplicate();
        let ghost dg = d;
        out.insert(k, d);
        proof {
            lemma_insert_sorted(before, k as int, dg, v@, i as int);
        }
        i = i + 1;
    }
    assert(v@.subrange(0, i as int) =~= v@);
    out
}

// ------------------------------------------------------------- validity

pub open spec fn all_nameable(ts: Seq<Ty>) -> bool {
    forall|k: int| 0 <= k < ts.len() ==> nameable(#[trigger] ts[k])
}

pub open spec fn flat_names_distinct(ts: Seq<Ty>) -> bool {
    forall|a: int, b: int| 0 <= a < b < ts.len() ==> flat_name(#[trigger] ts[a]) != flat_name(#[trigger] ts[b])
}

/// The registry entries can be emitted: each has a flat name and no two
/// entries share one, so every instantiation gets symbols of its own.
pub open spec fn emittable(ts: Seq<Ty>) -> bool {
    all_nameable(ts) && flat_names_distinct(ts)
}

/// A registry as the emitters take it: emittable and in order of flat names.
pub open spec fn registry_list_ok(ts: Seq<Ty>) -> bool {
    sorted_by_flat_name(ts) && emittable(ts)
}

/// Map keys are restricted to primitives and strings.
pub open spec fn map_key_ok(t: Ty) -> bool {
    match t {
        Ty::Mapping(k, _, _) => *k is Str || *k is Primitive,
        _ => true,
    }
}

pub open spec fn map_keys_ok(ts: Seq<Ty>) -> bool {
    forall|k: int| 0 <= k < ts.len() ==> map_key_ok(#[trigger] ts[k])
}

/// The wrapper can hand out elements of vectors and values of maps that
/// are strings, classes or primitives only.
pub open spec fn container_elem_ok(t: Ty) -> bool {
    match t {
        Ty::Vector(e, _) => *e is Str || *e is Object || *e is Primitive,
        Ty::Mapping(_, v, _) => *v is Str || *v is Object || *v is Primitive,
        _ => true,
    }
}

pub open spec fn elems_ok(ts: Seq<Ty>) -> bool {
    forall|k: int| 0 <= k < ts.len() ==> container_elem_ok(#[trigger] ts[k])
}

/// An exposer cannot serve an iterator or a user-supplied native factory.
pub open spec fn exposer_compatible(exposer: bool, m: MethodV) -> bool {
    exposer ==> !(m is Iter) && !(m is Ctor && m->Ctor_is_user_defined)
}

pub open spec fn is_optional_type(t: Ty) -> bool {
    t is Optional || t is Fallible
}

/// No argument of `m` is an `Option` or a `Result`.
pub open spec fn option_free(m: MethodV) -> bool {
    match m {
        MethodV::Ctor { args, .. } => forall|k: int| 0 <= k < args.len() ==> !is_optional_type(#[trigger] args[k].ty),
        MethodV::Method { args, .. } => forall|k: int| 0 <= k < args.len() ==> !is_optional_type(#[trigger] args[k].ty),
        MethodV::Iter { .. } => true,
    }
}

pub open spec fn class_valid(c: ClassV) -> bool {
    forall|k: int| 0 <= k < c.methods.len() ==> exposer_compatible(c.needs_exposer, #[trigger] c.methods[k])
        && option_free(c.methods[k])
}

/// What the emitters take: ordered, emittable registries, map keys that
/// are primitives or strings, elements the wrapper can hand out, and classes without forbidden combinations.
pub open spec fn ctx_ok(ms: Seq<ClassV>, vecs: Seq<Ty>, maps: Seq<Ty>) -> bool {
    registry_list_ok(vecs) && registry_list_ok(maps) && map_keys_ok(maps) && elems_ok(vecs) && elems_ok(maps)
        && forall|j: int| 0 <= j < ms.len() ==> class_valid(#[trigger] ms[j])
}

} // verus!
