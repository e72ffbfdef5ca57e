use vstd::prelude::*;
use crate::text::{cat2, lemma_text_assoc, opt_view};
use crate::types::{ffi_name_only, flat_name, nameable, Ty, TypeKind};
use crate::model::{
    field_has_setter, field_kind_of, fields_view, methods_view, models_view, types_view, BindContext, ClassModel,
    ClassV, FieldDef, FieldKind, FieldV, MethodDef, MethodKind, MethodV,
};
use crate::preprocess::strings_view;
use crate::registry::{all_nameable, ctx_ok, registry_list_ok};

verus! {

broadcast use lemma_text_assoc;

// ------------------------------------------------------------- includes

pub open spec fn is_system_include(p: Seq<char>) -> bool {
    p.len() >= 1 && p[0] == '<' && p[p.len() - 1] == '>'
}

pub open spec fn include_line(p: Seq<char>) -> Seq<char> {
    if is_system_include(p) {
        "#include "@ + p + "\n"@
    } else {
        "#include \""@ + p + "\"\n"@
    }
}

pub open spec fn includes_text(ps: Seq<Seq<char>>) -> Seq<char>
    decreases ps.len(),
{
    if ps.len() == 0 {
        Seq::empty()
    } else {
        includes_text(ps.drop_last()) + include_line(ps.last())
    }
}

fn generate_includes(includes: &Vec<String>, out: &mut String)
    ensures
        final(out)@ == old(out)@ + includes_text(strings_view(includes@)),
{
    let ghost start = out@;
    let mut i: usize = 0;
    while i < includes.len()
        invariant
            0 <= i <= includes@.len(),
            out@ == start + includes_text(strings_view(includes@).subrange(0, i as int)),
        decreases includes@.len() - i,
    {
        let p = includes[i].as_str();
        let n = p.unicode_len();
        let system = n >= 1 && p.get_char(0) == '<' && p.get_char(n - 1) == '>';
        if system {
            out.append("#include ");
            out.append(p);
            out.append("\n");
        } else {
            out.append("#include \"");
            out.append(p);
            out.append("\"\n");
        }
        proof {
            let pre = strings_view(includes@).subrange(0, i + 1);
            assert(pre.drop_last() =~= strings_view(includes@).subrange(0, i as int));
            assert(pre.last() == p@);
        }
        i = i + 1;
    }
    assert(strings_view(includes@).subrange(0, i as int) =~= strings_view(includes@));
}

// --------------------------------------------------------------- fields

pub open spec fn macro_args2(a: Seq<char>, b: Seq<char>) -> Seq<char> {
    "("@ + a + ", "@ + b + ")\n"@
}

pub open spec fn macro_args3(a: Seq<char>, b: Seq<char>, c: Seq<char>) -> Seq<char> {
    "("@ + a + ", "@ + b + ", "@ + c + ")\n"@
}

/// The getter macro of field `f`: const-only where the field is readonly.
pub open spec fn field_getter_macro(f: FieldV) -> Seq<char> {
    match field_kind_of(f.ty) {
        FieldKind::Val => "DEFINE_VAL"@,
        FieldKind::OptVal => "DEFINE_OPT_VAL"@,
        FieldKind::Obj | FieldKind::Vector | FieldKind::Mapping => if f.is_readonly {
            "DEFINE_OBJ_CONST"@
        } else {
            "DEFINE_OBJ"@
        },
        FieldKind::OptObj => if f.is_readonly { "DEFINE_OPT_OBJ_CONST"@ } else { "DEFINE_OPT_OBJ"@ },
    }
}

/// The setter macro of field `f`, where it has a setter.
pub open spec fn field_setter_macro(f: FieldV) -> Seq<char> {
    if field_kind_of(f.ty) is Obj { "DEFINE_OBJ_SET"@ } else { "DEFINE_VAL_SET"@ }
}

/// The accessor macro invocations for field `f` of the class named `c`.
pub open spec fn field_shim(c: Seq<char>, f: FieldV) -> Seq<char> {
    let a = macro_args2(c, f.name);
    field_getter_macro(f) + a + if field_has_setter(f) { field_setter_macro(f) + a } else { Seq::empty() }
}

fn macro_call2(out: &mut String, name: &str, a: &str, b: &str)
    ensures
        final(out)@ == old(out)@ + name@ + macro_args2(a@, b@),
{
    out.append(name);
    out.append("(");
    out.append(a);
    out.append(", ");
    out.append(b);
    out.append(")\n");
}

fn macro_call3(out: &mut String, name: &str, a: &str, b: &str, c: &str)
    ensures
        final(out)@ == old(out)@ + name@ + macro_args3(a@, b@, c@),
{
    out.append(name);
    out.append("(");
    out.append(a);
    out.append(", ");
    out.append(b);
    out.append(", ");
    out.append(c);
    out.append(")\n");
}

pub fn generate_field_shim(class_name: &str, field: &FieldDef, out: &mut String)
    ensures
        final(out)@ == old(out)@ + field_shim(class_name@, field@),
{
    let f = field.name.as_str();
    let kind = field.kind();
    let getter: &str = match kind {
        FieldKind::Val => "DEFINE_VAL",
        FieldKind::OptVal => "DEFINE_OPT_VAL",
        FieldKind::Obj | FieldKind::Vector | FieldKind::Mapping => {
            if field.is_readonly { "DEFINE_OBJ_CONST" } else { "DEFINE_OBJ" }
        },
        FieldKind::OptObj => {
            if field.is_readonly { "DEFINE_OPT_OBJ_CONST" } else { "DEFINE_OPT_OBJ" }
        },
    };
    macro_call2(out, getter, class_name, f);
    if field.has_setter() {
        let setter: &str = if kind == FieldKind::Obj { "DEFINE_OBJ_SET" } else { "DEFINE_VAL_SET" };
        macro_call2(out, setter, class_name, f);
    } else {
        assert(out@ =~= out@ + Seq::<char>::empty());
    }
}

// -------------------------------------------------------------- methods

/// The macro invocation for method `m` of the class named `c`; none for an
/// iterator whose item type has no name.
pub open spec fn method_shim(c: Seq<char>, m: MethodV) -> Option<Seq<char>> {
    match m {
        MethodV::Iter { rust_name, yield_ty, is_owned, .. } => match ffi_name_only(yield_ty) {
            Some(y) => Some((if is_owned { "DEFINE_ITER"@ } else { "DEFINE_ITER_REF"@ }) + macro_args3(c, rust_name, y)),
            None => None,
        },
        MethodV::Method { rust_name, cpp_name, kind, .. } => Some(match kind {
            MethodKind::Static => "DEFINE_STATIC_METHOD"@ + macro_args3(c, rust_name, cpp_name),
            MethodKind::Const => if cpp_name == "operator()"@ {
                "DEFINE_OP_CALL_CONST"@ + macro_args2(c, rust_name)
            } else {
                "DEFINE_METHOD_CONST"@ + macro_args3(c, rust_name, cpp_name)
            },
            MethodKind::Mutable => if cpp_name == "operator()"@ {
                "DEFINE_OP_CALL"@ + macro_args2(c, rust_name)
            } else {
                "DEFINE_METHOD"@ + macro_args3(c, rust_name, cpp_name)
            },
        }),
        MethodV::Ctor { rust_name, is_user_defined, .. } => Some(if is_user_defined {
            Seq::empty()
        } else {
            "DEFINE_CTOR"@ + macro_args2(c, rust_name)
        }),
    }
}

fn is_call_operator(name: &String) -> (r: bool)
    ensures
        r == (name@ == "operator()"@),
{
    let op = String::from_str("operator()");
    name.eq(&op)
}

pub fn generate_method_shim(class_name: &str, method: &MethodDef, out: &mut String) -> (ok: bool)
    ensures
        ok == method_shim(class_name@, method@) is Some,
        ok ==> final(out)@ == old(out)@ + method_shim(class_name@, method@).unwrap(),
{
    match method {
        MethodDef::Iter(it) => {
            match it.yield_ty.to_ffi_type_name_only() {
                Some(y) => {
                    let name: &str = if it.is_owned { "DEFINE_ITER" } else { "DEFINE_ITER_REF" };
                    macro_call3(out, name, class_name, it.rust_name.as_str(), y.as_str());
                    true
                },
                None => false,
            }
        },
        MethodDef::Method(func) => {
            let r = func.rust_name.as_str();
            let c = func.cpp_name.as_str();
            match func.kind {
                MethodKind::Static => macro_call3(out, "DEFINE_STATIC_METHOD", class_name, r, c),
                MethodKind::Const => {
                    if is_call_operator(&func.cpp_name) {
                        macro_call2(out, "DEFINE_OP_CALL_CONST", class_name, r);
                    } else {
                        macro_call3(out, "DEFINE_METHOD_CONST", class_name, r, c);
                    }
                },
                MethodKind::Mutable => {
                    if is_call_operator(&func.cpp_name) {
                        macro_call2(out, "DEFINE_OP_CALL", class_name, r);
                    } else {
                        macro_call3(out, "DEFINE_METHOD", class_name, r, c);
                    }
                },
            }
            true
        },
        MethodDef::Ctor(ctor) => {
            if !ctor.is_user_defined {
                macro_call2(out, "DEFINE_CTOR", class_name, ctor.rust_name.as_str());
            } else {
                assert(out@ =~= out@ + Seq::<char>::empty());
            }
            true
        },
    }
}

// -------------------------------------------------------------- classes

pub open spec fn using_line(base: Seq<char>, member: Seq<char>) -> Seq<char> {
    "using "@ + base + "::"@ + member + ";\n"@
}

pub open spec fn exposed_fields(n: Seq<char>, fs: Seq<FieldV>) -> Seq<char>
    decreases fs.len(),
{
    if fs.len() == 0 {
        Seq::empty()
    } else if fs.last().is_protected {
        exposed_fields(n, fs.drop_last()) + using_line(n, fs.last().name)
    } else {
        exposed_fields(n, fs.drop_last())
    }
}

pub open spec fn exposed_methods(n: Seq<char>, ms: Seq<MethodV>) -> Seq<char>
    decreases ms.len(),
{
    if ms.len() == 0 {
        Seq::empty()
    } else {
        match ms.last() {
            MethodV::Method { cpp_name, is_protected, .. } => if is_protected {
                exposed_methods(n, ms.drop_last()) + using_line(n, cpp_name)
            } else {
                exposed_methods(n, ms.drop_last())
            },
            _ => exposed_methods(n, ms.drop_last()),
        }
    }
}

/// The native subclass that re-exposes the protected members of `c` under their own names.
pub open spec fn exposer_class(c: ClassV) -> Seq<char> {
    "class "@ + c.name + "_Exposer : public "@ + c.name + " {\n"@ + "public:\n"@
        + using_line(c.name, c.name) + exposed_fields(c.name, c.fields)
        + exposed_methods(c.name, c.methods) + "};\n\n"@
}

pub open spec fn fields_shim(c: Seq<char>, fs: Seq<FieldV>) -> Seq<char>
    decreases fs.len(),
{
    if fs.len() == 0 {
        Seq::empty()
    } else {
        fields_shim(c, fs.drop_last()) + field_shim(c, fs.last())
    }
}

pub open spec fn methods_shim(c: Seq<char>, ms: Seq<MethodV>) -> Option<Seq<char>>
    decreases ms.len(),
{
    if ms.len() == 0 {
        Some(Seq::empty())
    } else {
        match (methods_shim(c, ms.drop_last()), method_shim(c, ms.last())) {
            (Some(a), Some(b)) => Some(a + b),
            _ => None,
        }
    }
}

/// The name under which the native side addresses class `c`.
pub open spec fn shim_target(c: ClassV) -> Seq<char> {
    if c.needs_exposer { c.name + "_Exposer"@ } else { c.name }
}

impl ClassModel {
    /// A model with no members yet.
    pub fn new(name: String) -> (r: Self)
        ensures
            r@ == (ClassV { name: name@, fields: Seq::empty(), methods: Seq::empty(), needs_exposer: false }),
    {
        let r = ClassModel { name, fields: Vec::new(), methods: Vec::new(), needs_exposer: false };
        assert(fields_view(r.fields@) =~= Seq::<FieldV>::empty());
        assert(methods_view(r.methods@) =~= Seq::<MethodV>::empty());
        r
    }

    /// The name under which the native side addresses this class.
    pub fn get_cxx_name(&self) -> (r: String)
        ensures
            r@ == shim_target(self@),
    {
        if self.needs_exposer {
            cat2(self.name.as_str(), "_Exposer")
        } else {
            self.name.clone()
        }
    }
}

/// The shim of one class: its exposer if it needs one, then one invocation
/// per field and per method.
pub open spec fn class_shim(c: ClassV) -> Option<Seq<char>> {
    let pre = if c.needs_exposer { exposer_class(c) } else { Seq::empty() };
    match methods_shim(shim_target(c), c.methods) {
        Some(m) => Some(pre + fields_shim(shim_target(c), c.fields) + m),
        None => None,
    }
}

pub fn generate_exposer_class(class: &ClassModel, out: &mut String)
    ensures
        final(out)@ == old(out)@ + exposer_class(class@),
{
    let n = class.name.as_str();
    let ghost start = out@;
    out.append("class ");
    out.append(n);
    out.append("_Exposer : public ");
    out.append(n);
    out.append(" {\n");
    out.append("public:\n");
    using(out, n, n);
    let ghost head = out@;
    let mut i: usize = 0;
    while i < class.fields.len()
        invariant
            0 <= i <= class.fields@.len(),
            n@ == class@.name,
            out@ == head + exposed_fields(n@, class@.fields.subrange(0, i as int)),
        decreases class.fields@.len() - i,
    {
        if class.fields[i].is_protected {
            using(out, n, class.fields[i].name.as_str());
        }
        proof {
            let pre = class@.fields.subrange(0, i + 1);
            assert(pre.drop_last() =~= class@.fields.subrange(0, i as int));
            assert(pre.last() == class.fields@[i as int]@);
        }
        i = i + 1;
    }
    assert(class@.fields.subrange(0, i as int) =~= class@.fields);
    let ghost mid = out@;
    let mut j: usize = 0;
    while j < class.methods.len()
        invariant
            0 <= j <= class.methods@.len(),
            n@ == class@.name,
            out@ == mid + exposed_methods(n@, class@.methods.subrange(0, j as int)),
        decreases class.methods@.len() - j,
    {
        if let MethodDef::Method(func) = &class.methods[j] {
            if func.is_protected {
                using(out, n, func.cpp_name.as_str());
            }
        }
        proof {
            let pre = class@.methods.subrange(0, j + 1);
            assert(pre.drop_last() =~= class@.methods.subrange(0, j as int));
            assert(pre.last() == class.methods@[j as int]@);
        }
        j = j + 1;
    }
    assert(class@.methods.subrange(0, j as int) =~= class@.methods);
    out.append("};\n\n");
}

fn using(out: &mut String, base: &str, member: &str)
    ensures
        final(out)@ == old(out)@ + using_line(base@, member@),
{
    out.append("using ");
    out.append(base);
    out.append("::");
    out.append(member);
    out.append(";\n");
}

fn generate_fields_shim(t: &str, fields: &Vec<FieldDef>, out: &mut String)
    ensures
        final(out)@ == old(out)@ + fields_shim(t@, fields_view(fields@)),
{
    let ghost head = out@;
    let ghost fv = fields_view(fields@);
    let mut i: usize = 0;
    while i < fields.len()
        invariant
            0 <= i <= fields@.len(),
            fv == fields_view(fields@),
            out@ == head + fields_shim(t@, fv.subrange(0, i as int)),
        decreases fields@.len() - i,
    {
        generate_field_shim(t, &fields[i], out);
        proof {
            let pre = fv.subrange(0, i + 1);
            assert(pre.drop_last() =~= fv.subrange(0, i as int));
            assert(pre.last() == fields@[i as int]@);
        }
        i = i + 1;
    }
    assert(fv.subrange(0, i as int) =~= fv);
}

/// Appends the shim of `class`; false, with `out` unspecified, where an
/// iterator's item type has no name.
pub fn generate_class_shim(class: &ClassModel, out: &mut String) -> (ok: bool)
    ensures
        ok == class_shim(class@) is Some,
        ok ==> final(out)@ == old(out)@ + class_shim(class@).unwrap(),
{
    let ghost start = out@;
    let target = if class.needs_exposer {
        generate_exposer_class(class, out);
        cat2(class.name.as_str(), "_Exposer")
    } else {
        assert(out@ =~= out@ + Seq::<char>::empty());
        class.name.clone()
    };
    let t = target.as_str();
    generate_fields_shim(t, &class.fields, out);
    let ghost mid = out@;
    let mut j: usize = 0;
    while j < class.methods.len()
        invariant
            0 <= j <= class.methods@.len(),
            t@ == shim_target(class@),
            methods_shim(t@, class@.methods.subrange(0, j as int)) is Some,
            out@ == mid + methods_shim(t@, class@.methods.subrange(0, j as int)).unwrap(),
        decreases class.methods@.len() - j,
    {
        let ok = generate_method_shim(t, &class.methods[j], out);
        proof {
            let pre = class@.methods.subrange(0, j + 1);
            assert(pre.drop_last() =~= class@.methods.subrange(0, j as int));
            assert(pre.last() == class.methods@[j as int]@);
        }
        if !ok {
            proof {
                lemma_methods_shim_none(t@, class@.methods, j + 1);
            }
            return false;
        }
        j = j + 1;
    }
    assert(class@.methods.subrange(0, j as int) =~= class@.methods);
    true
}

/// Once a prefix of the methods has no shim, the whole list has none.
proof fn lemma_methods_shim_none(c: Seq<char>, ms: Seq<MethodV>, k: int)
    requires
        0 <= k <= ms.len(),
        methods_shim(c, ms.subrange(0, k)) is None,
    ensures
        methods_shim(c, ms) is None,
    decreases ms.len() - k,
{
    if k < ms.len() {
        assert(ms.subrange(0, k + 1).drop_last() =~= ms.subrange(0, k));
        lemma_methods_shim_none(c, ms, k + 1);
    } else {
        assert(ms.subrange(0, k) =~= ms);
    }
}

// ----------------------------------------------------------- containers

pub open spec fn cpp_elem(n: Seq<char>) -> Seq<char> {
    if n == "String"@ { "std::string"@ } else { n }
}

/// The alias and operation bundle of one vector instantiation.
pub open spec fn vec_shim(t: Ty) -> Seq<char> {
    match t {
        Ty::Vector(i, p) => {
            let e = cpp_elem(flat_name(*i));
            let alias = flat_name(t);
            (if p {
                "using "@ + alias + " = std::vector<std::unique_ptr<"@ + e + ">>;\n"@
            } else {
                "using "@ + alias + " = std::vector<"@ + e + ">;\n"@
            }) + "DEFINE_VEC_OPS"@ + macro_args2(alias, e) + "\n"@
        },
        _ => Seq::empty(),
    }
}

/// The alias and operation bundle of one map instantiation.
pub open spec fn map_shim(t: Ty) -> Seq<char> {
    match t {
        Ty::Mapping(k, v, p) => {
            let ke = cpp_elem(flat_name(*k));
            let ve = cpp_elem(flat_name(*v));
            let alias = flat_name(t);
            (if p {
                "using "@ + alias + " = std::unordered_map<"@ + ke + ",std::unique_ptr<"@ + ve + ">>;\n"@
            } else {
                "using "@ + alias + " = std::unordered_map<"@ + ke + ","@ + ve + ">;\n"@
            }) + "DEFINE_MAP_OPS("@ + alias + ")\n"@ + "DEFINE_MAP_ITER("@ + alias + ")\n"@ + "\n"@
        },
        _ => Seq::empty(),
    }
}

pub open spec fn vec_shims(ts: Seq<Ty>) -> Seq<char>
    decreases ts.len(),
{
    if ts.len() == 0 {
        Seq::empty()
    } else {
        vec_shims(ts.drop_last()) + vec_shim(ts.last())
    }
}

pub open spec fn map_shims(ts: Seq<Ty>) -> Seq<char>
    decreases ts.len(),
{
    if ts.len() == 0 {
        Seq::empty()
    } else {
        map_shims(ts.drop_last()) + map_shim(ts.last())
    }
}

fn cpp_elem_of(t: &TypeKind) -> (r: String)
    requires
        nameable(t@),
    ensures
        r@ == cpp_elem(flat_name(t@)),
{
    let n = t.get_flat_name();
    let s = String::from_str("String");
    if n.eq(&s) {
        String::from_str("std::string")
    } else {
        n
    }
}

fn generate_vec_shim(def: &TypeKind, out: &mut String)
    requires
        nameable(def@),
    ensures
        final(out)@ == old(out)@ + vec_shim(def@),
{
    if let TypeKind::Vector { inner, is_ptr } = def {
        let e = cpp_elem_of(inner);
        let alias = def.get_flat_name();
        out.append("using ");
        out.append(alias.as_str());
        if *is_ptr {
            out.append(" = std::vector<std::unique_ptr<");
            out.append(e.as_str());
            out.append(">>;\n");
        } else {
            out.append(" = std::vector<");
            out.append(e.as_str());
            out.append(">;\n");
        }
        macro_call2(out, "DEFINE_VEC_OPS", alias.as_str(), e.as_str());
        out.append("\n");
    } else {
        assert(out@ =~= out@ + Seq::<char>::empty());
    }
}

/// Appends the alias and operations of each vector instantiation, in registry order.
pub fn generate_vec_shims(vec_defs: &Vec<TypeKind>, out: &mut String)
    requires
        registry_list_ok(types_view(vec_defs@)),
    ensures
        final(out)@ == old(out)@ + vec_shims(types_view(vec_defs@)),
{
    let ghost start = out@;
    let mut i: usize = 0;
    while i < vec_defs.len()
        invariant
            0 <= i <= vec_defs@.len(),
            registry_list_ok(types_view(vec_defs@)),
            out@ == start + vec_shims(types_view(vec_defs@).subrange(0, i as int)),
        decreases vec_defs@.len() - i,
    {
        assert(nameable(types_view(vec_defs@)[i as int]));
        generate_vec_shim(&vec_defs[i], out);
        proof {
            let pre = types_view(vec_defs@).subrange(0, i + 1);
            assert(pre.drop_last() =~= types_view(vec_defs@).subrange(0, i as int));
            assert(pre.last() == vec_defs@[i as int]@);
        }
        i = i + 1;
    }
    assert(types_view(vec_defs@).subrange(0, i as int) =~= types_view(vec_defs@));
}

fn generate_map_shim(def: &TypeKind, out: &mut String)
    requires
        nameable(def@),
    ensures
        final(out)@ == old(out)@ + map_shim(def@),
{
    if let TypeKind::Mapping { key, value, is_val_ptr } = def {
        let ke = cpp_elem_of(key);
        let ve = cpp_elem_of(value);
        let alias = def.get_flat_name();
        out.append("using ");
        out.append(alias.as_str());
        out.append(" = std::unordered_map<");
        out.append(ke.as_str());
        if *is_val_ptr {
            out.append(",std::unique_ptr<");
            out.append(ve.as_str());
            out.append(">>;\n");
        } else {
            out.append(",");
            out.append(ve.as_str());
            out.append(">;\n");
        }
        out.append("DEFINE_MAP_OPS(");
        out.append(alias.as_str());
        out.append(")\n");
        out.append("DEFINE_MAP_ITER(");
        out.append(alias.as_str());
        out.append(")\n");
        out.append("\n");
    } else {
        assert(out@ =~= out@ + Seq::<char>::empty());
    }
}

/// Appends the alias and operations of each map instantiation, in registry order.
pub fn generate_map_shims(map_defs: &Vec<TypeKind>, out: &mut String)
    requires
        registry_list_ok(types_view(map_defs@)),
    ensures
        final(out)@ == old(out)@ + map_shims(types_view(map_defs@)),
{
    let ghost start = out@;
    let mut i: usize = 0;
    while i < map_defs.len()
        invariant
            0 <= i <= map_defs@.len(),
            registry_list_ok(types_view(map_defs@)),
            out@ == start + map_shims(types_view(map_defs@).subrange(0, i as int)),
        decreases map_defs@.len() - i,
    {
        assert(nameable(types_view(map_defs@)[i as int]));
        generate_map_shim(&map_defs[i], out);
        proof {
            let pre = types_view(map_defs@).subrange(0, i + 1);
            assert(pre.drop_last() =~= types_view(map_defs@).subrange(0, i as int));
            assert(pre.last() == map_defs@[i as int]@);
        }
        i = i + 1;
    }
    assert(types_view(map_defs@).subrange(0, i as int) =~= types_view(map_defs@));
}

// ---------------------------------------------------------------- header

pub open spec fn classes_shim(ms: Seq<ClassV>) -> Option<Seq<char>>
    decreases ms.len(),
{
    if ms.len() == 0 {
        Some(Seq::empty())
    } else {
        match (classes_shim(ms.drop_last()), class_shim(ms.last())) {
            (Some(a), Some(b)) => Some(a + b),
            _ => None,
        }
    }
}

/// The native header: includes, a blank line, the container instantiations,
/// then each class in declaration order. None where a container or an
/// iterator's item type has no name.
pub open spec fn cpp_header(
    includes: Seq<Seq<char>>,
    vecs: Seq<Ty>,
    maps: Seq<Ty>,
    ms: Seq<ClassV>,
) -> Option<Seq<char>> {
    match classes_shim(ms) {
        Some(c) => Some(includes_text(includes) + "\n"@ + vec_shims(vecs) + map_shims(maps) + c),
        None => None,
    }
}

pub fn check_nameable(ts: &Vec<TypeKind>) -> (r: bool)
    ensures
        r == all_nameable(types_view(ts@)),
{
    let mut i: usize = 0;
    while i < ts.len()
        invariant
            0 <= i <= ts@.len(),
            forall|k: int| 0 <= k < i ==> nameable(#[trigger] ts@[k]@),
        decreases ts@.len() - i,
    {
        if !ts[i].is_nameable() {
            assert(!nameable(types_view(ts@)[i as int]));
            return false;
        }
        i = i + 1;
    }
    assert forall|k: int| 0 <= k < types_view(ts@).len() implies nameable(#[trigger] types_view(ts@)[k]) by {
        assert(nameable(ts@[k]@));
    }
    true
}

/// The native header for `ctx`.
pub fn generate_cpp(ctx: &BindContext) -> (r: Option<String>)
    requires
        ctx_ok(models_view(ctx.models@), types_view(ctx.vec_defs@), types_view(ctx.map_defs@)),
    ensures
        opt_view(r) == cpp_header(
            strings_view(ctx.includes@),
            types_view(ctx.vec_defs@),
            types_view(ctx.map_defs@),
            models_view(ctx.models@),
        ),
{
    let mut out = String::new();
    generate_includes(&ctx.includes, &mut out);
    out.append("\n");
    generate_vec_shims(&ctx.vec_defs, &mut out);
    generate_map_shims(&ctx.map_defs, &mut out);
    match generate_class_shims(&ctx.models) {
        Some(c) => {
            out.append(c.as_str());
            Some(out)
        },
        None => None,
    }
}

fn generate_class_shims(models: &Vec<ClassModel>) -> (r: Option<String>)
    ensures
        opt_view(r) == classes_shim(models_view(models@)),
{
    let ghost ms = models_view(models@);
    let mut out = String::new();
    let mut i: usize = 0;
    while i < models.len()
        invariant
            0 <= i <= models@.len(),
            ms == models_view(models@),
            classes_shim(ms.subrange(0, i as int)) == Some(out@),
        decreases models@.len() - i,
    {
        let mut part = String::new();
        let ok = generate_class_shim(&models[i], &mut part);
        proof {
            let pre = ms.subrange(0, i + 1);
            assert(pre.drop_last() =~= ms.subrange(0, i as int));
            assert(pre.last() == models@[i as int]@);
        }
        if !ok {
            proof {
                lemma_classes_shim_none(ms, i + 1);
            }
            return None;
        }
        assert(part@ =~= Seq::<char>::empty() + class_shim(models@[i as int]@).unwrap());
        out.append(part.as_str());
        i = i + 1;
    }
    assert(ms.subrange(0, i as int) =~= ms);
    Some(out)
}

proof fn lemma_classes_shim_none(ms: Seq<ClassV>, k: int)
    requires
        0 <= k <= ms.len(),
        classes_shim(ms.subrange(0, k)) is None,
    ensures
        classes_shim(ms) is None,
    decreases ms.len() - k,
{
    if k < ms.len() {
        assert(ms.subrange(0, k + 1).drop_last() =~= ms.subrange(0, k));
        lemma_classes_shim_none(ms, k + 1);
    } else {
        assert(ms.subrange(0, k) =~= ms);
    }
}

} // verus!
