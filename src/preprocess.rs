use vstd::prelude::*;
use crate::types::{Ty, TypeKind};
use crate::model::{
    BindInput, BindContext, types_view, args_view, fields_view, methods_view, models_view, Arg, ArgV, BindItem, ClassModel, ClassV, CtorDef, FieldDef,
    FieldV, FnDef, IterDef, MethodDef, MethodV,
};
use crate::registry::{
    all_nameable, class_valid, ctx_ok, exposer_compatible, flat_names_distinct, is_optional_type, map_key_ok,
    map_keys_ok, option_free, sort_by_flat_name, container_elem_ok, elems_ok,
};
use crate::shim::check_nameable;
use crate::types::{flat_name, nameable};
use crate::registry::{sorted_by_flat_name, collect_containers, registry_ok, registry_set, vecs_of, maps_of, all_types};

verus! {

/// A fatal configuration error found while building the models.
pub enum BindError {
    /// A second struct declaration with a name already declared.
    DuplicateStruct(String),
    /// An impl block whose target struct has not been declared before it.
    UnknownImplTarget(String),
    /// An iterator attribute without a usable `Item = T | &T | &mut T`.
    MissingIterItem(String),
    /// A method that takes `self` by value.
    PassByValueSelf(String),
    /// An iterator method that takes arguments.
    IteratorWithArguments(String),
    /// An iterator method without a receiver.
    StaticIterator(String),
    /// An iterator yielding `&mut T` from a `&self` receiver.
    MutableItemOnSharedReceiver(String),
    /// A constructor (a method returning `Self`) with a receiver.
    NonStaticConstructor(String),
    /// A class with protected members, which needs an exposer, that has an iterator.
    ExposerWithIterator(String),
    /// A class with protected members that has a user-supplied native factory.
    ExposerWithCustomFactory(String),
    /// A method or constructor with an `Option` or `Result` argument.
    OptionArgument(String),
    /// A container instantiation without a flat name (a slice inside it).
    UnnamedContainer,
    /// Two distinct container instantiations with the same flat name.
    ContainerNameCollision(String),
    /// A map whose key is neither a primitive nor a string.
    UnsupportedMapKey(String),
    /// A vector whose element, or a map whose value, is neither a string, a
    /// class nor a primitive.
    UnsupportedElement(String),
}

/// The mathematical form of a `BindError`.
pub enum BindFailure {
    DuplicateStruct(Seq<char>),
    UnknownImplTarget(Seq<char>),
    MissingIterItem(Seq<char>),
    PassByValueSelf(Seq<char>),
    IteratorWithArguments(Seq<char>),
    StaticIterator(Seq<char>),
    MutableItemOnSharedReceiver(Seq<char>),
    NonStaticConstructor(Seq<char>),
    ExposerWithIterator(Seq<char>),
    ExposerWithCustomFactory(Seq<char>),
    OptionArgument(Seq<char>),
    UnnamedContainer,
    ContainerNameCollision(Seq<char>),
    UnsupportedMapKey(Seq<char>),
    UnsupportedElement(Seq<char>),
}

impl View for BindError {
    type V = BindFailure;

    open spec fn view(&self) -> BindFailure {
        match self {
            BindError::DuplicateStruct(n) => BindFailure::DuplicateStruct(n@),
            BindError::UnknownImplTarget(n) => BindFailure::UnknownImplTarget(n@),
            BindError::MissingIterItem(n) => BindFailure::MissingIterItem(n@),
            BindError::PassByValueSelf(n) => BindFailure::PassByValueSelf(n@),
            BindError::IteratorWithArguments(n) => BindFailure::IteratorWithArguments(n@),
            BindError::StaticIterator(n) => BindFailure::StaticIterator(n@),
            BindError::MutableItemOnSharedReceiver(n) => BindFailure::MutableItemOnSharedReceiver(n@),
            BindError::NonStaticConstructor(n) => BindFailure::NonStaticConstructor(n@),
            BindError::ExposerWithIterator(n) => BindFailure::ExposerWithIterator(n@),
            BindError::ExposerWithCustomFactory(n) => BindFailure::ExposerWithCustomFactory(n@),
            BindError::OptionArgument(n) => BindFailure::OptionArgument(n@),
            BindError::UnnamedContainer => BindFailure::UnnamedContainer,
            BindError::ContainerNameCollision(n) => BindFailure::ContainerNameCollision(n@),
            BindError::UnsupportedMapKey(n) => BindFailure::UnsupportedMapKey(n@),
            BindError::UnsupportedElement(n) => BindFailure::UnsupportedElement(n@),
        }
    }
}

pub open spec fn has_class(ms: Seq<ClassV>, n: Seq<char>) -> bool {
    exists|j: int| 0 <= j < ms.len() && ms[j].name == n
}

pub open spec fn class_index(ms: Seq<ClassV>, n: Seq<char>) -> int {
    choose|j: int| 0 <= j < ms.len() && ms[j].name == n
}

pub open spec fn names_distinct(ms: Seq<ClassV>) -> bool {
    forall|a: int, b: int| 0 <= a < b < ms.len() ==> ms[a].name != ms[b].name
}

pub open spec fn any_protected_field(fs: Seq<FieldV>) -> bool {
    exists|k: int| 0 <= k < fs.len() && fs[k].is_protected
}

pub open spec fn is_protected_method(m: MethodV) -> bool {
    match m {
        MethodV::Method { is_protected, .. } => is_protected,
        _ => false,
    }
}

pub open spec fn any_protected_method(ms: Seq<MethodV>) -> bool {
    exists|k: int| 0 <= k < ms.len() && is_protected_method(ms[k])
}

/// The models after one more top-level item: a struct opens a model, an
/// impl block extends the model of its target.
pub open spec fn merge_step(ms: Seq<ClassV>, item: BindItem) -> Result<Seq<ClassV>, BindFailure> {
    match item {
        BindItem::Include(_) => Ok(ms),
        BindItem::Struct(s) => if has_class(ms, s.name@) {
            Err(BindFailure::DuplicateStruct(s.name@))
        } else {
            Ok(ms.push(ClassV {
                name: s.name@,
                fields: fields_view(s.fields@),
                methods: Seq::empty(),
                needs_exposer: any_protected_field(fields_view(s.fields@)),
            }))
        },
        BindItem::Impl(d) => if !has_class(ms, d.target@) {
            Err(BindFailure::UnknownImplTarget(d.target@))
        } else {
            let j = class_index(ms, d.target@);
            Ok(ms.update(j, ClassV {
                methods: ms[j].methods + methods_view(d.methods@),
                needs_exposer: ms[j].needs_exposer || any_protected_method(methods_view(d.methods@)),
                ..ms[j]
            }))
        },
    }
}

/// The models that the items declare, or the first configuration error.
pub open spec fn merged(items: Seq<BindItem>) -> Result<Seq<ClassV>, BindFailure>
    decreases items.len(),
{
    if items.len() == 0 {
        Ok(Seq::empty())
    } else {
        match merged(items.drop_last()) {
            Err(e) => Err(e),
            Ok(ms) => merge_step(ms, items.last()),
        }
    }
}

/// The include paths, in order.
pub open spec fn includes_of(items: Seq<BindItem>) -> Seq<Seq<char>>
    decreases items.len(),
{
    if items.len() == 0 {
        Seq::empty()
    } else {
        match items.last() {
            BindItem::Include(p) => includes_of(items.drop_last()).push(p@),
            _ => includes_of(items.drop_last()),
        }
    }
}

/// Once a prefix of the items fails, the whole list fails the same way.
proof fn lemma_failure_persists(items: Seq<BindItem>, k: int)
    requires
        0 <= k <= items.len(),
        merged(items.subrange(0, k)) is Err,
    ensures
        merged(items) == merged(items.subrange(0, k)),
    decreases items.len() - k,
{
    if k < items.len() {
        assert(items.subrange(0, k + 1).drop_last() =~= items.subrange(0, k));
        lemma_failure_persists(items, k + 1);
    } else {
        assert(items.subrange(0, k) =~= items);
    }
}

pub open spec fn strings_view(v: Seq<String>) -> Seq<Seq<char>> {
    v.map_values(|s: String| s@)
}

fn copy_args(a: &Vec<Arg>) -> (r: Vec<Arg>)
    ensures
        args_view(r@) == args_view(a@),
{
    let mut r: Vec<Arg> = Vec::new();
    let mut i: usize = 0;
    while i < a.len()
        invariant
            0 <= i <= a@.len(),
            args_view(r@) == args_view(a@).subrange(0, i as int),
        decreases a@.len() - i,
    {
        let ghost before = r@;
        let x = Arg { name: a[i].name.clone(), ty: a[i].ty.duplicate() };
        assert(x@ == a@[i as int]@);
        r.push(x);
        assert(args_view(r@) =~= args_view(before).push(x@));
        assert(args_view(r@) =~= args_view(a@).subrange(0, i + 1));
        i = i + 1;
    }
    assert(args_view(a@).subrange(0, i as int) =~= args_view(a@));
    r
}

fn copy_fields(a: &Vec<FieldDef>) -> (r: Vec<FieldDef>)
    ensures
        fields_view(r@) == fields_view(a@),
{
    let mut r: Vec<FieldDef> = Vec::new();
    let mut i: usize = 0;
    while i < a.len()
        invariant
            0 <= i <= a@.len(),
            fields_view(r@) == fields_view(a@).subrange(0, i as int),
        decreases a@.len() - i,
    {
        let ghost before = r@;
        let x = FieldDef {
            name: a[i].name.clone(),
            ty: a[i].ty.duplicate(),
            is_protected: a[i].is_protected,
            is_readonly: a[i].is_readonly,
        };
        assert(x@ == a@[i as int]@);
        r.push(x);
        assert(fields_view(r@) =~= fields_view(before).push(x@));
        assert(fields_view(r@) =~= fields_view(a@).subrange(0, i + 1));
        i = i + 1;
    }
    assert(fields_view(a@).subrange(0, i as int) =~= fields_view(a@));
    r
}

fn copy_method(m: &MethodDef) -> (r: MethodDef)
    ensures
        r@ == m@,
{
    match m {
        MethodDef::Ctor(c) => MethodDef::Ctor(CtorDef {
            rust_name: c.rust_name.clone(),
            args: copy_args(&c.args),
            cpp_name: c.cpp_name.clone(),
            is_user_defined: c.is_user_defined,
        }),
        MethodDef::Iter(it) => MethodDef::Iter(IterDef {
            rust_name: it.rust_name.clone(),
            yield_ty: it.yield_ty.duplicate(),
            cpp_name: it.cpp_name.clone(),
            is_iter_mut: it.is_iter_mut,
            is_owned: it.is_owned,
            is_item_mut: it.is_item_mut,
        }),
        MethodDef::Method(f) => MethodDef::Method(FnDef {
            rust_name: f.rust_name.clone(),
            cpp_name: f.cpp_name.clone(),
            args: copy_args(&f.args),
            ret_ty: match &f.ret_ty {
                Some(t) => Some(t.duplicate()),
                None => None,
            },
            kind: f.kind,
            is_protected: f.is_protected,
        }),
    }
}

/// Appends copies of `ms` to `out` and says whether one of them is a protected method.
fn append_methods(out: &mut Vec<MethodDef>, ms: &Vec<MethodDef>) -> (any_protected: bool)
    ensures
        methods_view(final(out)@) == methods_view(old(out)@) + methods_view(ms@),
        any_protected == any_protected_method(methods_view(ms@)),
{
    let ghost start = methods_view(out@);
    let mut found = false;
    let mut i: usize = 0;
    while i < ms.len()
        invariant
            0 <= i <= ms@.len(),
            methods_view(out@) == start + methods_view(ms@).subrange(0, i as int),
            found == any_protected_method(methods_view(ms@).subrange(0, i as int)),
        decreases ms@.len() - i,
    {
        let ghost before = out@;
        let m = copy_method(&ms[i]);
        let p = match &ms[i] {
            MethodDef::Method(f) => f.is_protected,
            _ => false,
        };
        out.push(m);
        proof {
            let pre = methods_view(ms@).subrange(0, i + 1);
            assert(methods_view(out@) =~= methods_view(before).push(ms@[i as int]@));
            assert(pre =~= methods_view(ms@).subrange(0, i as int).push(ms@[i as int]@));
            assert(methods_view(out@) =~= start + pre);
            assert(p == is_protected_method(pre[i as int]));
            if found {
                let k = choose|k: int| 0 <= k < i && is_protected_method(methods_view(ms@).subrange(0, i as int)[k]);
                assert(is_protected_method(pre[k]));
            }
            if any_protected_method(pre) && !p {
                let k = choose|k: int| 0 <= k < pre.len() && is_protected_method(pre[k]);
                assert(is_protected_method(methods_view(ms@).subrange(0, i as int)[k]));
            }
        }
        found = found || p;
        i = i + 1;
    }
    assert(methods_view(ms@).subrange(0, i as int) =~= methods_view(ms@));
    found
}

fn any_protected(fs: &Vec<FieldDef>) -> (r: bool)
    ensures
        r == any_protected_field(fields_view(fs@)),
{
    let mut i: usize = 0;
    while i < fs.len()
        invariant
            0 <= i <= fs@.len(),
            forall|k: int| 0 <= k < i ==> !fs@[k].is_protected,
        decreases fs@.len() - i,
    {
        if fs[i].is_protected {
            assert(fields_view(fs@)[i as int].is_protected);
            return true;
        }
        i = i + 1;
    }
    proof {
        if any_protected_field(fields_view(fs@)) {
            let k = choose|k: int| 0 <= k < fields_view(fs@).len() && fields_view(fs@)[k].is_protected;
            assert(fs@[k].is_protected);
        }
    }
    false
}

/// The index of the model named `n`, if there is one.
fn find_class(models: &Vec<ClassModel>, n: &String) -> (r: Option<usize>)
    requires
        names_distinct(models_view(models@)),
    ensures
        match r {
            Some(j) => j < models@.len() && has_class(models_view(models@), n@)
                && j == class_index(models_view(models@), n@),
            None => !has_class(models_view(models@), n@),
        },
{
    let mut i: usize = 0;
    while i < models.len()
        invariant
            0 <= i <= models@.len(),
            forall|k: int| 0 <= k < i ==> models@[k].name@ != n@,
            names_distinct(models_view(models@)),
        decreases models@.len() - i,
    {
        if models[i].name.eq(n) {
            proof {
                let ms = models_view(models@);
                assert(ms[i as int].name == n@);
                let c = class_index(ms, n@);
                assert(ms[c].name == n@);
                assert(c == i) by {
                    if c < i {
                        assert(ms[c].name != ms[i as int].name);
                    } else if c > i {
                        assert(ms[i as int].name != ms[c].name);
                    }
                }
            }
            return Some(i);
        }
        i = i + 1;
    }
    proof {
        if has_class(models_view(models@), n@) {
            let k = choose|k: int| 0 <= k < models_view(models@).len() && models_view(models@)[k].name == n@;
            assert(models@[k].name@ == n@);
        }
    }
    None
}

/// Builds one model per struct, merging each impl block into its target.
pub fn merge_items(items: &Vec<BindItem>) -> (r: Result<(Vec<String>, Vec<ClassModel>), BindError>)
    ensures
        match r {
            Ok((incl, ms)) => merged(items@) == Ok::<Seq<ClassV>, BindFailure>(models_view(ms@))
                && strings_view(incl@) == includes_of(items@),
            Err(e) => merged(items@) == Err::<Seq<ClassV>, BindFailure>(e@),
        },
{
    let mut includes: Vec<String> = Vec::new();
    let mut models: Vec<ClassModel> = Vec::new();
    let mut i: usize = 0;
    assert(items@.subrange(0, 0) =~= Seq::<BindItem>::empty());
    assert(strings_view(includes@) =~= Seq::<Seq<char>>::empty());
    assert(models_view(models@) =~= Seq::<ClassV>::empty());
    while i < items.len()
        invariant
            0 <= i <= items@.len(),
            merged(items@.subrange(0, i as int)) == Ok::<Seq<ClassV>, BindFailure>(models_view(models@)),
            strings_view(includes@) == includes_of(items@.subrange(0, i as int)),
            names_distinct(models_view(models@)),
        decreases items@.len() - i,
    {
        let ghost pre = items@.subrange(0, i + 1);
        let ghost ms0 = models_view(models@);
        proof {
            assert(pre.drop_last() =~= items@.subrange(0, i as int));
            assert(pre.last() == items@[i as int]);
        }
        match &items[i] {
            BindItem::Include(p) => {
                includes.push(p.clone());
                assert(strings_view(includes@) =~= includes_of(pre));
            },
            BindItem::Struct(s) => {
                if find_class(&models, &s.name).is_some() {
                    proof {
                        lemma_failure_persists(items@, i + 1);
                    }
                    return Err(BindError::DuplicateStruct(s.name.clone()));
                }
                let exposer = any_protected(&s.fields);
                models.push(ClassModel {
                    name: s.name.clone(),
                    fields: copy_fields(&s.fields),
                    methods: Vec::new(),
                    needs_exposer: exposer,
                });
                proof {
                    assert(methods_view(models@[models@.len() - 1].methods@) =~= Seq::<MethodV>::empty());
                    assert(models_view(models@) =~= merge_step(ms0, pre.last())->Ok_0);
                    assert forall|a: int, b: int| 0 <= a < b < models_view(models@).len()
                        implies models_view(models@)[a].name != models_view(models@)[b].name by {
                        if b == ms0.len() {
                            assert(models_view(models@)[a] == ms0[a]);
                        } else {
                            assert(ms0[a].name != ms0[b].name);
                        }
                    }
                }
            },
            BindItem::Impl(d) => {
                match find_class(&models, &d.target) {
                    None => {
                        proof {
                            lemma_failure_persists(items@, i + 1);
                        }
                        return Err(BindError::UnknownImplTarget(d.target.clone()));
                    },
                    Some(j) => {
                        let ghost old_models = models@;
                        let mut m = models.remove(j);
                        let p = append_methods(&mut m.methods, &d.methods);
                        m.needs_exposer = m.needs_exposer || p;
                        models.insert(j, m);
                        proof {
                            assert(models@ =~= old_models.update(j as int, m));
                            assert(models_view(models@) =~= merge_step(ms0, pre.last())->Ok_0);
                            assert forall|a: int, b: int| 0 <= a < b < models_view(models@).len()
                                implies models_view(models@)[a].name != models_view(models@)[b].name by {
                                assert(ms0[a].name != ms0[b].name);
                            }
                        }
                    },
                }
            },
        }
        i = i + 1;
    }
    assert(items@.subrange(0, i as int) =~= items@);
    Ok((includes, models))
}

/// A type with every name of a declared class turned into an object, and
/// every container of unique pointers collapsed into a pointer container.
pub open spec fn resolve(t: Ty, known: Seq<Seq<char>>) -> Ty
    decreases t,
{
    match t {
        Ty::Primitive(n) => if known.contains(n) { Ty::Object(n) } else { t },
        Ty::Str | Ty::Object(_) => t,
        Ty::Vector(i, p) => match *i {
            Ty::UniquePtr(x) => Ty::Vector(Box::new(resolve(*x, known)), true),
            _ => Ty::Vector(Box::new(resolve(*i, known)), p),
        },
        Ty::Mapping(k, v, p) => match *v {
            Ty::UniquePtr(x) => Ty::Mapping(Box::new(resolve(*k, known)), Box::new(resolve(*x, known)), true),
            _ => Ty::Mapping(Box::new(resolve(*k, known)), Box::new(resolve(*v, known)), p),
        },
        Ty::Optional(i) => Ty::Optional(Box::new(resolve(*i, known))),
        Ty::Fallible(i) => Ty::Fallible(Box::new(resolve(*i, known))),
        Ty::Reference(i, m) => Ty::Reference(Box::new(resolve(*i, known)), m),
        Ty::UniquePtr(i) => Ty::UniquePtr(Box::new(resolve(*i, known))),
        Ty::Slice(i) => Ty::Slice(Box::new(resolve(*i, known))),
    }
}

pub open spec fn resolve_args(a: Seq<ArgV>, known: Seq<Seq<char>>) -> Seq<ArgV> {
    a.map_values(|x: ArgV| ArgV { name: x.name, ty: resolve(x.ty, known) })
}

pub open spec fn resolve_method(m: MethodV, known: Seq<Seq<char>>) -> MethodV {
    match m {
        MethodV::Ctor { rust_name, args, cpp_name, is_user_defined } => MethodV::Ctor {
            rust_name,
            args: resolve_args(args, known),
            cpp_name,
            is_user_defined,
        },
        MethodV::Iter { rust_name, yield_ty, cpp_name, is_iter_mut, is_owned, is_item_mut } => MethodV::Iter {
            rust_name,
            yield_ty: resolve(yield_ty, known),
            cpp_name,
            is_iter_mut,
            is_owned,
            is_item_mut,
        },
        MethodV::Method { rust_name, cpp_name, args, ret_ty, kind, is_protected } => MethodV::Method {
            rust_name,
            cpp_name,
            args: resolve_args(args, known),
            ret_ty: match ret_ty {
                Some(r) => Some(resolve(r, known)),
                None => None,
            },
            kind,
            is_protected,
        },
    }
}

pub open spec fn default_ctor() -> MethodV {
    MethodV::Ctor { rust_name: "new"@, args: Seq::empty(), cpp_name: "new"@, is_user_defined: false }
}

pub open spec fn has_ctor(ms: Seq<MethodV>) -> bool {
    exists|k: int| 0 <= k < ms.len() && ms[k] is Ctor
}

/// A model with its types resolved against the declared class names.
pub open spec fn resolve_class(c: ClassV, known: Seq<Seq<char>>) -> ClassV {
    ClassV {
        name: c.name,
        fields: c.fields.map_values(|f: FieldV| FieldV { ty: resolve(f.ty, known), ..f }),
        methods: c.methods.map_values(|m: MethodV| resolve_method(m, known)),
        needs_exposer: c.needs_exposer,
    }
}

/// A model with a default constructor added when it declares none.
pub open spec fn with_default_ctor(c: ClassV) -> ClassV {
    if has_ctor(c.methods) {
        c
    } else {
        ClassV { methods: c.methods.push(default_ctor()), ..c }
    }
}

/// The model that the emitters see for a merged model `c`.
pub open spec fn finish_class(c: ClassV, known: Seq<Seq<char>>) -> ClassV {
    with_default_ctor(resolve_class(c, known))
}

pub open spec fn class_names(ms: Seq<ClassV>) -> Seq<Seq<char>> {
    ms.map_values(|c: ClassV| c.name)
}

fn is_known(known: &Vec<String>, n: &String) -> (r: bool)
    ensures
        r == strings_view(known@).contains(n@),
{
    let mut i: usize = 0;
    while i < known.len()
        invariant
            0 <= i <= known@.len(),
            forall|k: int| 0 <= k < i ==> known@[k]@ != n@,
        decreases known@.len() - i,
    {
        if known[i].eq(n) {
            assert(strings_view(known@)[i as int] == n@);
            return true;
        }
        i = i + 1;
    }
    proof {
        if strings_view(known@).contains(n@) {
            let k = choose|k: int| 0 <= k < strings_view(known@).len() && strings_view(known@)[k] == n@;
            assert(known@[k]@ == n@);
        }
    }
    false
}

/// Resolves `t` against the declared class names `known`.
pub fn resolve_type(t: &TypeKind, known: &Vec<String>) -> (r: TypeKind)
    ensures
        r@ == resolve(t@, strings_view(known@)),
    decreases t,
{
    proof {
        reveal_with_fuel(crate::types::ty_of, 2);
    }
    match t {
        TypeKind::Primitive(n) => {
            if is_known(known, n) {
                TypeKind::Object(n.clone())
            } else {
                TypeKind::Primitive(n.clone())
            }
        },
        TypeKind::String => TypeKind::String,
        TypeKind::Object(n) => TypeKind::Object(n.clone()),
        TypeKind::Vector { inner, is_ptr } => match &**inner {
            TypeKind::UniquePtr(x) => TypeKind::Vector {
                inner: Box::new(resolve_type(x, known)),
                is_ptr: true,
            },
            _ => TypeKind::Vector { inner: Box::new(resolve_type(inner, known)), is_ptr: *is_ptr },
        },
        TypeKind::Mapping { key, value, is_val_ptr } => match &**value {
            TypeKind::UniquePtr(x) => TypeKind::Mapping {
                key: Box::new(resolve_type(key, known)),
                value: Box::new(resolve_type(x, known)),
                is_val_ptr: true,
            },
            _ => TypeKind::Mapping {
                key: Box::new(resolve_type(key, known)),
                value: Box::new(resolve_type(value, known)),
                is_val_ptr: *is_val_ptr,
            },
        },
        TypeKind::Option(i) => TypeKind::Option(Box::new(resolve_type(i, known))),
        TypeKind::Result(i) => TypeKind::Result(Box::new(resolve_type(i, known))),
        TypeKind::Reference { inner, is_mut } => TypeKind::Reference {
            inner: Box::new(resolve_type(inner, known)),
            is_mut: *is_mut,
        },
        TypeKind::UniquePtr(i) => TypeKind::UniquePtr(Box::new(resolve_type(i, known))),
        TypeKind::Slice(i) => TypeKind::Slice(Box::new(resolve_type(i, known))),
    }
}

fn resolve_args_of(a: &Vec<Arg>, known: &Vec<String>) -> (r: Vec<Arg>)
    ensures
        args_view(r@) == resolve_args(args_view(a@), strings_view(known@)),
{
    let ghost k = strings_view(known@);
    let mut r: Vec<Arg> = Vec::new();
    let mut i: usize = 0;
    while i < a.len()
        invariant
            0 <= i <= a@.len(),
            k == strings_view(known@),
            args_view(r@) == resolve_args(args_view(a@), k).subrange(0, i as int),
        decreases a@.len() - i,
    {
        let ghost before = r@;
        let x = Arg { name: a[i].name.clone(), ty: resolve_type(&a[i].ty, known) };
        r.push(x);
        assert(args_view(r@) =~= args_view(before).push(x@));
        assert(args_view(r@) =~= resolve_args(args_view(a@), k).subrange(0, i + 1));
        i = i + 1;
    }
    assert(resolve_args(args_view(a@), k).subrange(0, i as int) =~= resolve_args(args_view(a@), k));
    r
}

fn resolve_method_of(m: &MethodDef, known: &Vec<String>) -> (r: MethodDef)
    ensures
        r@ == resolve_method(m@, strings_view(known@)),
{
    match m {
        MethodDef::Ctor(c) => MethodDef::Ctor(CtorDef {
            rust_name: c.rust_name.clone(),
            args: resolve_args_of(&c.args, known),
            cpp_name: c.cpp_name.clone(),
            is_user_defined: c.is_user_defined,
        }),
        MethodDef::Iter(it) => MethodDef::Iter(IterDef {
            rust_name: it.rust_name.clone(),
            yield_ty: resolve_type(&it.yield_ty, known),
            cpp_name: it.cpp_name.clone(),
            is_iter_mut: it.is_iter_mut,
            is_owned: it.is_owned,
            is_item_mut: it.is_item_mut,
        }),
        MethodDef::Method(f) => MethodDef::Method(FnDef {
            rust_name: f.rust_name.clone(),
            cpp_name: f.cpp_name.clone(),
            args: resolve_args_of(&f.args, known),
            ret_ty: match &f.ret_ty {
                Some(t) => Some(resolve_type(t, known)),
                None => None,
            },
            kind: f.kind,
            is_protected: f.is_protected,
        }),
    }
}

fn resolve_class_of(c: &ClassModel, known: &Vec<String>) -> (r: ClassModel)
    ensures
        r@ == resolve_class(c@, strings_view(known@)),
{
    let ghost k = strings_view(known@);
    let ghost target = resolve_class(c@, k);
    let mut fields: Vec<FieldDef> = Vec::new();
    let mut i: usize = 0;
    while i < c.fields.len()
        invariant
            0 <= i <= c.fields@.len(),
            k == strings_view(known@),
            target == resolve_class(c@, k),
            fields_view(fields@) == target.fields.subrange(0, i as int),
        decreases c.fields@.len() - i,
    {
        let ghost before = fields@;
        let f = &c.fields[i];
        let x = FieldDef {
            name: f.name.clone(),
            ty: resolve_type(&f.ty, known),
            is_protected: f.is_protected,
            is_readonly: f.is_readonly,
        };
        fields.push(x);
        assert(fields_view(fields@) =~= fields_view(before).push(x@));
        assert(fields_view(fields@) =~= target.fields.subrange(0, i + 1));
        i = i + 1;
    }
    let mut methods: Vec<MethodDef> = Vec::new();
    let mut j: usize = 0;
    while j < c.methods.len()
        invariant
            0 <= j <= c.methods@.len(),
            k == strings_view(known@),
            target == resolve_class(c@, k),
            methods_view(methods@) == target.methods.subrange(0, j as int),
        decreases c.methods@.len() - j,
    {
        let ghost before = methods@;
        let x = resolve_method_of(&c.methods[j], known);
        methods.push(x);
        assert(methods_view(methods@) =~= methods_view(before).push(x@));
        assert(methods_view(methods@) =~= target.methods.subrange(0, j + 1));
        j = j + 1;
    }
    assert(target.fields.subrange(0, i as int) =~= target.fields);
    assert(target.methods.subrange(0, j as int) =~= target.methods);
    ClassModel { name: c.name.clone(), fields, methods, needs_exposer: c.needs_exposer }
}

/// Adds a default constructor `new` to every model that declares no constructor.
pub fn inject_default_ctors(models: &mut Vec<ClassModel>)
    ensures
        models_view(final(models)@) == models_view(old(models)@).map_values(
            |c: ClassV| with_default_ctor(c),
        ),
{
    let ghost start = models_view(models@);
    let mut i: usize = 0;
    while i < models.len()
        invariant
            0 <= i <= models@.len(),
            models@.len() == start.len(),
            forall|k: int| 0 <= k < i ==> models@[k]@ == with_default_ctor(#[trigger] start[k]),
            forall|k: int| i <= k < models@.len() ==> models@[k]@ == start[k],
        decreases models@.len() - i,
    {
        let mut found = false;
        let mut j: usize = 0;
        while j < models[i].methods.len()
            invariant
                0 <= i < models@.len(),
                0 <= j <= models@[i as int].methods@.len(),
                found == has_ctor(models@[i as int]@.methods.subrange(0, j as int)),
            decreases models@[i as int].methods@.len() - j,
        {
            let c = matches!(models[i].methods[j], MethodDef::Ctor(_));
            proof {
                let ms = models@[i as int]@.methods;
                let pre = ms.subrange(0, j + 1);
                assert(c == pre[j as int] is Ctor);
                if found {
                    let k = choose|k: int| 0 <= k < j && ms.subrange(0, j as int)[k] is Ctor;
                    assert(pre[k] is Ctor);
                }
                if has_ctor(pre) && !c {
                    let k = choose|k: int| 0 <= k < pre.len() && pre[k] is Ctor;
                    assert(ms.subrange(0, j as int)[k] is Ctor);
                }
            }
            found = found || c;
            j = j + 1;
        }
        proof {
            assert(models@[i as int]@.methods.subrange(0, j as int) =~= models@[i as int]@.methods);
        }
        if !found {
            let mut m = models.remove(i);
            let ghost before = m.methods@;
            m.methods.push(MethodDef::Ctor(CtorDef {
                rust_name: String::from_str("new"),
                args: Vec::new(),
                cpp_name: String::from_str("new"),
                is_user_defined: false,
            }));
            proof {
                assert(args_view(Seq::<Arg>::empty()) =~= Seq::<ArgV>::empty());
                assert(methods_view(m.methods@) =~= methods_view(before).push(default_ctor()));
            }
            models.insert(i, m);
        }
        i = i + 1;
    }
    assert(models_view(models@) =~= start.map_values(|c: ClassV| with_default_ctor(c)));
}

// ------------------------------------------------------------ validation

pub open spec fn method_name(m: MethodV) -> Seq<char> {
    match m {
        MethodV::Ctor { rust_name, .. } | MethodV::Iter { rust_name, .. } | MethodV::Method { rust_name, .. } => rust_name,
    }
}

/// `e` names a rule that class `c` breaks.
pub open spec fn class_failure(c: ClassV, e: BindFailure) -> bool {
    match e {
        BindFailure::ExposerWithIterator(n) => n == c.name && c.needs_exposer
            && exists|k: int| 0 <= k < c.methods.len() && #[trigger] c.methods[k] is Iter,
        BindFailure::ExposerWithCustomFactory(n) => n == c.name && c.needs_exposer
            && exists|k: int| 0 <= k < c.methods.len() && #[trigger] c.methods[k] is Ctor
                && c.methods[k]->Ctor_is_user_defined,
        BindFailure::OptionArgument(n) => exists|k: int| 0 <= k < c.methods.len()
            && !option_free(#[trigger] c.methods[k]) && method_name(c.methods[k]) == n,
        _ => false,
    }
}

pub open spec fn set_nameable(s: Set<Ty>) -> bool {
    forall|t: Ty| #[trigger] s.contains(t) ==> nameable(t)
}

pub open spec fn set_distinct(s: Set<Ty>) -> bool {
    forall|a: Ty, b: Ty| #[trigger] s.contains(a) && #[trigger] s.contains(b) && a != b ==> flat_name(a) != flat_name(b)
}

pub open spec fn set_keys_ok(s: Set<Ty>) -> bool {
    forall|t: Ty| #[trigger] s.contains(t) ==> map_key_ok(t)
}

pub open spec fn set_elems_ok(s: Set<Ty>) -> bool {
    forall|t: Ty| #[trigger] s.contains(t) ==> container_elem_ok(t)
}

/// The models break none of the rules of classes and containers.
pub open spec fn models_valid(ms: Seq<ClassV>) -> bool {
    let v = vecs_of(all_types(ms));
    let m = maps_of(all_types(ms));
    (forall|j: int| 0 <= j < ms.len() ==> class_valid(#[trigger] ms[j])) && set_nameable(v) && set_nameable(m)
        && set_distinct(v) && set_distinct(m) && set_keys_ok(m) && set_elems_ok(v) && set_elems_ok(m)
}

pub open spec fn collides(s: Set<Ty>, n: Seq<char>) -> bool {
    exists|a: Ty, b: Ty| #[trigger] s.contains(a) && #[trigger] s.contains(b) && a != b && flat_name(a) == n
        && flat_name(b) == n
}

/// `e` names a rule that the models break.
pub open spec fn model_failure(ms: Seq<ClassV>, e: BindFailure) -> bool {
    let v = vecs_of(all_types(ms));
    let m = maps_of(all_types(ms));
    match e {
        BindFailure::UnnamedContainer => !set_nameable(v) || !set_nameable(m),
        BindFailure::ContainerNameCollision(n) => collides(v, n) || collides(m, n),
        BindFailure::UnsupportedMapKey(n) => exists|t: Ty| #[trigger] m.contains(t) && !map_key_ok(t) && flat_name(t) == n,
        BindFailure::UnsupportedElement(n) => (exists|t: Ty| #[trigger] v.contains(t) && !container_elem_ok(t) && flat_name(t) == n)
            || (exists|t: Ty| #[trigger] m.contains(t) && !container_elem_ok(t) && flat_name(t) == n),
        _ => exists|j: int| 0 <= j < ms.len() && class_failure(#[trigger] ms[j], e),
    }
}

/// The models that the emitters see for `items`, once merged without error.
pub open spec fn final_models(items: Seq<BindItem>) -> Seq<ClassV> {
    merged(items)->Ok_0.map_values(|c: ClassV| finish_class(c, class_names(merged(items)->Ok_0)))
}

fn args_option_free(args: &Vec<Arg>) -> (r: bool)
    ensures
        r == forall|k: int| 0 <= k < args@.len() ==> !is_optional_type(#[trigger] args_view(args@)[k].ty),
{
    let mut i: usize = 0;
    while i < args.len()
        invariant
            0 <= i <= args@.len(),
            forall|k: int| 0 <= k < i ==> !is_optional_type(#[trigger] args_view(args@)[k].ty),
        decreases args@.len() - i,
    {
        match &args[i].ty {
            TypeKind::Option(_) | TypeKind::Result(_) => {
                assert(is_optional_type(args_view(args@)[i as int].ty));
                return false;
            },
            _ => {},
        }
        i = i + 1;
    }
    true
}

/// Checks the rules on the methods of one class.
pub fn check_class(c: &ClassModel) -> (r: Result<(), BindError>)
    ensures
        r is Ok <==> class_valid(c@),
        r matches Err(e) ==> class_failure(c@, e@),
{
    let ghost cv = c@;
    let mut k: usize = 0;
    while k < c.methods.len()
        invariant
            0 <= k <= c.methods@.len(),
            cv == c@,
            forall|i: int| 0 <= i < k ==> exposer_compatible(cv.needs_exposer, #[trigger] cv.methods[i])
                && option_free(cv.methods[i]),
        decreases c.methods@.len() - k,
    {
        assert(cv.methods[k as int] == c.methods@[k as int]@);
        match &c.methods[k] {
            MethodDef::Iter(_) => {
                if c.needs_exposer {
                    return Err(BindError::ExposerWithIterator(c.name.clone()));
                }
            },
            MethodDef::Ctor(ct) => {
                if c.needs_exposer && ct.is_user_defined {
                    return Err(BindError::ExposerWithCustomFactory(c.name.clone()));
                }
                if !args_option_free(&ct.args) {
                    proof {
                        let av = args_view(ct.args@);
                        let w = choose|w: int| 0 <= w < ct.args@.len() && is_optional_type(#[trigger] av[w].ty);
                        assert(c.methods@[k as int] == MethodDef::Ctor(*ct));
                        assert(cv.methods[k as int]->Ctor_args == av);
                        assert(is_optional_type(cv.methods[k as int]->Ctor_args[w].ty));
                        assert(!option_free(cv.methods[k as int]));
                    }
                    assert(method_name(cv.methods[k as int]) == ct.rust_name@);
                    return Err(BindError::OptionArgument(ct.rust_name.clone()));
                }
            },
            MethodDef::Method(f) => {
                if !args_option_free(&f.args) {
                    proof {
                        let av = args_view(f.args@);
                        let w = choose|w: int| 0 <= w < f.args@.len() && is_optional_type(#[trigger] av[w].ty);
                        assert(c.methods@[k as int] == MethodDef::Method(*f));
                        assert(cv.methods[k as int]->Method_args == av);
                        assert(is_optional_type(cv.methods[k as int]->Method_args[w].ty));
                        assert(!option_free(cv.methods[k as int]));
                    }
                    assert(method_name(cv.methods[k as int]) == f.rust_name@);
                    return Err(BindError::OptionArgument(f.rust_name.clone()));
                }
            },
        }
        k = k + 1;
    }
    Ok(())
}

fn check_classes(ms: &Vec<ClassModel>) -> (r: Result<(), BindError>)
    ensures
        r is Ok <==> forall|j: int| 0 <= j < ms@.len() ==> class_valid(#[trigger] models_view(ms@)[j]),
        r matches Err(e) ==> exists|j: int| 0 <= j < ms@.len() && class_failure(#[trigger] models_view(ms@)[j], e@),
{
    let mut j: usize = 0;
    while j < ms.len()
        invariant
            0 <= j <= ms@.len(),
            forall|i: int| 0 <= i < j ==> class_valid(#[trigger] models_view(ms@)[i]),
        decreases ms@.len() - j,
    {
        assert(models_view(ms@)[j as int] == ms@[j as int]@);
        match check_class(&ms[j]) {
            Ok(()) => {},
            Err(e) => {
                return Err(e);
            },
        }
        j = j + 1;
    }
    Ok(())
}

/// The first flat name that two entries share, if any.
fn find_collision(ts: &Vec<TypeKind>) -> (r: Option<String>)
    requires
        all_nameable(types_view(ts@)),
    ensures
        r is None <==> flat_names_distinct(types_view(ts@)),
        r matches Some(n) ==> exists|a: int, b: int| 0 <= a < b < ts@.len()
            && flat_name(#[trigger] types_view(ts@)[a]) == n@ && flat_name(#[trigger] types_view(ts@)[b]) == n@,
{
    let ghost tv = types_view(ts@);
    let mut b: usize = 0;
    while b < ts.len()
        invariant
            0 <= b <= ts@.len(),
            tv == types_view(ts@),
            all_nameable(tv),
            forall|x: int, y: int| 0 <= x < y < b ==> flat_name(#[trigger] tv[x]) != flat_name(#[trigger] tv[y]),
        decreases ts@.len() - b,
    {
        assert(nameable(tv[b as int]));
        let nb = ts[b].get_flat_name();
        let mut a: usize = 0;
        while a < b
            invariant
                0 <= a <= b < ts@.len(),
                tv == types_view(ts@),
                all_nameable(tv),
                nb@ == flat_name(tv[b as int]),
                forall|x: int| 0 <= x < a ==> flat_name(#[trigger] tv[x]) != flat_name(tv[b as int]),
            decreases b - a,
        {
            assert(nameable(tv[a as int]));
            let na = ts[a].get_flat_name();
            if na.eq(&nb) {
                assert(flat_name(tv[a as int]) == nb@);
                return Some(nb);
            }
            a = a + 1;
        }
        b = b + 1;
    }
    None
}

/// The flat name of the first map whose key is neither a primitive nor a string, if any.
fn find_bad_key(ts: &Vec<TypeKind>) -> (r: Option<String>)
    requires
        all_nameable(types_view(ts@)),
    ensures
        r is None <==> map_keys_ok(types_view(ts@)),
        r matches Some(n) ==> exists|k: int| 0 <= k < ts@.len() && !map_key_ok(#[trigger] types_view(ts@)[k])
            && flat_name(types_view(ts@)[k]) == n@,
{
    let ghost tv = types_view(ts@);
    let mut k: usize = 0;
    while k < ts.len()
        invariant
            0 <= k <= ts@.len(),
            tv == types_view(ts@),
            all_nameable(tv),
            forall|i: int| 0 <= i < k ==> map_key_ok(#[trigger] tv[i]),
        decreases ts@.len() - k,
    {
        proof {
            reveal_with_fuel(crate::types::ty_of, 2);
        }
        assert(tv[k as int] == ts@[k as int]@);
        if let TypeKind::Mapping { key, .. } = &ts[k] {
            match &**key {
                TypeKind::String | TypeKind::Primitive(_) => {},
                _ => {
                    assert(nameable(tv[k as int]));
                    assert(!map_key_ok(tv[k as int]));
                    return Some(ts[k].get_flat_name());
                },
            }
        }
        k = k + 1;
    }
    None
}

/// Finishing a model keeps which of its members are protected, and its flag.
proof fn lemma_finish_keeps_protection(c: ClassV, known: Seq<Seq<char>>)
    ensures
        finish_class(c, known).needs_exposer == c.needs_exposer,
        any_protected_field(finish_class(c, known).fields) == any_protected_field(c.fields),
        any_protected_method(finish_class(c, known).methods) == any_protected_method(c.methods),
{
    let r = resolve_class(c, known);
    let f = finish_class(c, known);
    assert forall|k: int| 0 <= k < c.fields.len() implies r.fields[k].is_protected == c.fields[k].is_protected by {}
    if any_protected_field(c.fields) {
        let k = choose|k: int| 0 <= k < c.fields.len() && c.fields[k].is_protected;
        assert(f.fields[k].is_protected);
    }
    if any_protected_field(f.fields) {
        let k = choose|k: int| 0 <= k < f.fields.len() && f.fields[k].is_protected;
        assert(c.fields[k].is_protected);
    }
    assert forall|k: int| 0 <= k < c.methods.len() implies is_protected_method(r.methods[k]) == is_protected_method(c.methods[k]) by {}
    if any_protected_method(c.methods) {
        let k = choose|k: int| 0 <= k < c.methods.len() && is_protected_method(c.methods[k]);
        assert(is_protected_method(r.methods[k]));
        if !has_ctor(r.methods) {
            assert(f.methods[k] == r.methods[k]);
        }
    }
    if any_protected_method(f.methods) {
        let k = choose|k: int| 0 <= k < f.methods.len() && is_protected_method(f.methods[k]);
        if k < r.methods.len() {
            assert(f.methods[k] == r.methods[k]);
            assert(is_protected_method(c.methods[k]));
        }
    }
}

/// The flat name of the first container whose elements the wrapper cannot hand out, if any.
fn find_bad_elem(ts: &Vec<TypeKind>) -> (r: Option<String>)
    requires
        all_nameable(types_view(ts@)),
    ensures
        r is None <==> elems_ok(types_view(ts@)),
        r matches Some(n) ==> exists|k: int| 0 <= k < ts@.len() && !container_elem_ok(#[trigger] types_view(ts@)[k])
            && flat_name(types_view(ts@)[k]) == n@,
{
    let ghost tv = types_view(ts@);
    let mut k: usize = 0;
    while k < ts.len()
        invariant
            0 <= k <= ts@.len(),
            tv == types_view(ts@),
            all_nameable(tv),
            forall|i: int| 0 <= i < k ==> container_elem_ok(#[trigger] tv[i]),
        decreases ts@.len() - k,
    {
        proof {
            reveal_with_fuel(crate::types::ty_of, 2);
        }
        assert(tv[k as int] == ts@[k as int]@);
        let inner: Option<&TypeKind> = match &ts[k] {
            TypeKind::Vector { inner, .. } => Some(&**inner),
            TypeKind::Mapping { value, .. } => Some(&**value),
            _ => None,
        };
        if let Some(e) = inner {
            match e {
                TypeKind::String | TypeKind::Object(_) | TypeKind::Primitive(_) => {},
                _ => {
                    assert(nameable(tv[k as int]));
                    assert(!container_elem_ok(tv[k as int]));
                    return Some(ts[k].get_flat_name());
                },
            }
        }
        k = k + 1;
    }
    None
}

/// For a list without duplicates, the conditions on its entries are the
/// conditions on the set of its entries.
proof fn lemma_list_set(ts: Seq<Ty>)
    requires
        ts.no_duplicates(),
    ensures
        all_nameable(ts) <==> set_nameable(ts.to_set()),
        flat_names_distinct(ts) <==> set_distinct(ts.to_set()),
        map_keys_ok(ts) <==> set_keys_ok(ts.to_set()),
        elems_ok(ts) <==> set_elems_ok(ts.to_set()),
        forall|n: Seq<char>| collides(ts.to_set(), n) <==> exists|a: int, b: int| 0 <= a < b < ts.len()
            && flat_name(#[trigger] ts[a]) == n && flat_name(#[trigger] ts[b]) == n,
{
    let s = ts.to_set();
    assert forall|k: int| 0 <= k < ts.len() implies s.contains(#[trigger] ts[k]) by {}
    if set_nameable(s) {
        assert forall|k: int| 0 <= k < ts.len() implies nameable(#[trigger] ts[k]) by {
            assert(s.contains(ts[k]));
        }
    }
    if all_nameable(ts) {
        assert forall|t: Ty| #[trigger] s.contains(t) implies nameable(t) by {
            let k = choose|k: int| 0 <= k < ts.len() && ts[k] == t;
        }
    }
    if set_keys_ok(s) {
        assert forall|k: int| 0 <= k < ts.len() implies map_key_ok(#[trigger] ts[k]) by {
            assert(s.contains(ts[k]));
        }
    }
    if map_keys_ok(ts) {
        assert forall|t: Ty| #[trigger] s.contains(t) implies map_key_ok(t) by {
            let k = choose|k: int| 0 <= k < ts.len() && ts[k] == t;
        }
    }
    if set_elems_ok(s) {
        assert forall|k: int| 0 <= k < ts.len() implies container_elem_ok(#[trigger] ts[k]) by {
            assert(s.contains(ts[k]));
        }
    }
    if elems_ok(ts) {
        assert forall|t: Ty| #[trigger] s.contains(t) implies container_elem_ok(t) by {
            let k = choose|k: int| 0 <= k < ts.len() && ts[k] == t;
        }
    }
    if set_distinct(s) {
        assert forall|a: int, b: int| 0 <= a < b < ts.len() implies flat_name(#[trigger] ts[a]) != flat_name(#[trigger] ts[b]) by {
            assert(s.contains(ts[a]) && s.contains(ts[b]));
            assert(ts[a] != ts[b]);
        }
    }
    if flat_names_distinct(ts) {
        assert forall|x: Ty, y: Ty| #[trigger] s.contains(x) && #[trigger] s.contains(y) && x != y implies flat_name(x) != flat_name(y) by {
            let a = choose|a: int| 0 <= a < ts.len() && ts[a] == x;
            let b = choose|b: int| 0 <= b < ts.len() && ts[b] == y;
            if a > b {
                assert(flat_name(ts[b]) != flat_name(ts[a]));
            }
        }
    }
    assert forall|n: Seq<char>| collides(s, n) <==> exists|a: int, b: int| 0 <= a < b < ts.len()
        && flat_name(#[trigger] ts[a]) == n && flat_name(#[trigger] ts[b]) == n by {
        if collides(s, n) {
            let (x, y) = choose|x: Ty, y: Ty| #[trigger] s.contains(x) && #[trigger] s.contains(y) && x != y
                && flat_name(x) == n && flat_name(y) == n;
            let a = choose|a: int| 0 <= a < ts.len() && ts[a] == x;
            let b = choose|b: int| 0 <= b < ts.len() && ts[b] == y;
            if a < b {
                assert(flat_name(ts[a]) == n && flat_name(ts[b]) == n);
            } else {
                assert(flat_name(ts[b]) == n && flat_name(ts[a]) == n);
            }
        }
        if exists|a: int, b: int| 0 <= a < b < ts.len() && flat_name(#[trigger] ts[a]) == n && flat_name(#[trigger] ts[b]) == n {
            let (a, b) = choose|a: int, b: int| 0 <= a < b < ts.len() && flat_name(#[trigger] ts[a]) == n
                && flat_name(#[trigger] ts[b]) == n;
            assert(s.contains(ts[a]) && s.contains(ts[b]) && ts[a] != ts[b]);
        }
    }
}

/// The model of the whole declaration: one model per struct in declaration
/// order with its types resolved and its default constructor, the include
/// paths, and the vector and map instantiations that the models need, each
/// recorded once.
pub fn preprocess(input: &BindInput) -> (r: Result<BindContext, BindError>)
    ensures
        match r {
            Ok(ctx) => merged(input.items@) is Ok
                && models_view(ctx.models@) == merged(input.items@)->Ok_0.map_values(
                    |c: ClassV| finish_class(c, class_names(merged(input.items@)->Ok_0)),
                )
                && strings_view(ctx.includes@) == includes_of(input.items@)
                && registry_ok(ctx.vec_defs@)
                && registry_ok(ctx.map_defs@)
                && registry_set(ctx.vec_defs@) == vecs_of(all_types(models_view(ctx.models@)))
                && registry_set(ctx.map_defs@) == maps_of(all_types(models_view(ctx.models@)))
                && models_valid(models_view(ctx.models@))
                && (forall|j: int| 0 <= j < ctx.models@.len() ==> (#[trigger] models_view(ctx.models@)[j]).needs_exposer
                    == (any_protected_field(models_view(ctx.models@)[j].fields)
                        || any_protected_method(models_view(ctx.models@)[j].methods)))
                && ctx_ok(models_view(ctx.models@), types_view(ctx.vec_defs@), types_view(ctx.map_defs@)),
            Err(e) => merged(input.items@) == Err::<Seq<ClassV>, BindFailure>(e@) || (merged(input.items@) is Ok
                && !models_valid(final_models(input.items@)) && model_failure(final_models(input.items@), e@)),
        },
{
    let (includes, merged_models) = match merge_items(&input.items) {
        Ok(x) => x,
        Err(e) => {
            return Err(e);
        },
    };
    let ghost ms = models_view(merged_models@);
    let mut known: Vec<String> = Vec::new();
    let mut i: usize = 0;
    while i < merged_models.len()
        invariant
            0 <= i <= merged_models@.len(),
            ms == models_view(merged_models@),
            strings_view(known@) == class_names(ms).subrange(0, i as int),
        decreases merged_models@.len() - i,
    {
        let ghost before = known@;
        let n = merged_models[i].name.clone();
        known.push(n);
        assert(strings_view(known@) =~= strings_view(before).push(n@));
        assert(ms[i as int].name == n@);
        assert(strings_view(known@) =~= class_names(ms).subrange(0, i + 1));
        i = i + 1;
    }
    assert(class_names(ms).subrange(0, i as int) =~= class_names(ms));
    let mut models: Vec<ClassModel> = Vec::new();
    let mut j: usize = 0;
    while j < merged_models.len()
        invariant
            0 <= j <= merged_models@.len(),
            ms == models_view(merged_models@),
            strings_view(known@) == class_names(ms),
            models_view(models@) == ms.map_values(
                |c: ClassV| resolve_class(c, class_names(ms)),
            ).subrange(0, j as int),
        decreases merged_models@.len() - j,
    {
        let ghost before = models@;
        let x = resolve_class_of(&merged_models[j], &known);
        models.push(x);
        assert(models_view(models@) =~= models_view(before).push(x@));
        assert(models_view(models@) =~= ms.map_values(
            |c: ClassV| resolve_class(c, class_names(ms)),
        ).subrange(0, j + 1));
        j = j + 1;
    }
    let ghost resolved = models_view(models@);
    assert(resolved =~= ms.map_values(|c: ClassV| resolve_class(c, class_names(ms))));
    inject_default_ctors(&mut models);
    assert(models_view(models@) =~= ms.map_values(|c: ClassV| finish_class(c, class_names(ms))));
    let ghost fm = models_view(models@);
    assert(fm == final_models(input.items@));
    proof {
        crate::laws::lemma_exposer_iff_protected(input.items@);
        assert forall|j: int| 0 <= j < fm.len() implies (#[trigger] fm[j]).needs_exposer
            == (any_protected_field(fm[j].fields) || any_protected_method(fm[j].methods)) by {
            lemma_finish_keeps_protection(ms[j], class_names(ms));
        }
    }
    if let Err(e) = check_classes(&models) {
        return Err(e);
    }
    let (vecs, maps) = collect_containers(&models);
    proof {
        lemma_list_set(types_view(vecs@));
        lemma_list_set(types_view(maps@));
    }
    if !check_nameable(&vecs) || !check_nameable(&maps) {
        return Err(BindError::UnnamedContainer);
    }
    let vec_defs = sort_by_flat_name(vecs);
    let map_defs = sort_by_flat_name(maps);
    proof {
        lemma_list_set(types_view(vec_defs@));
        lemma_list_set(types_view(map_defs@));
    }
    if let Some(n) = find_collision(&vec_defs) {
        return Err(BindError::ContainerNameCollision(n));
    }
    if let Some(n) = find_collision(&map_defs) {
        return Err(BindError::ContainerNameCollision(n));
    }
    if let Some(n) = find_bad_key(&map_defs) {
        proof {
            let k = choose|k: int| 0 <= k < map_defs@.len() && !map_key_ok(#[trigger] types_view(map_defs@)[k])
                && flat_name(types_view(map_defs@)[k]) == n@;
            assert(registry_set(map_defs@).contains(types_view(map_defs@)[k]));
        }
        return Err(BindError::UnsupportedMapKey(n));
    }
    if let Some(n) = find_bad_elem(&vec_defs) {
        proof {
            let k = choose|k: int| 0 <= k < vec_defs@.len() && !container_elem_ok(#[trigger] types_view(vec_defs@)[k])
                && flat_name(types_view(vec_defs@)[k]) == n@;
            assert(registry_set(vec_defs@).contains(types_view(vec_defs@)[k]));
        }
        return Err(BindError::UnsupportedElement(n));
    }
    if let Some(n) = find_bad_elem(&map_defs) {
        proof {
            let k = choose|k: int| 0 <= k < map_defs@.len() && !container_elem_ok(#[trigger] types_view(map_defs@)[k])
                && flat_name(types_view(map_defs@)[k]) == n@;
            assert(registry_set(map_defs@).contains(types_view(map_defs@)[k]));
        }
        return Err(BindError::UnsupportedElement(n));
    }
    Ok(BindContext { includes, models, vec_defs, map_defs })
}

} // verus!
