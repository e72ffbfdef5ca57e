use vstd::prelude::*;
use crate::types::TypeKind;
use crate::model::{args_view, opt_ty_view, Arg, CtorDef, FnDef, IterDef, MethodDef, MethodKind, MethodV};
use crate::preprocess::{BindError, BindFailure};

verus! {

/// How a declared method receives `self`.
#[derive(Clone, Copy, PartialEq, Eq, Structural)]
pub enum Receiver {
    /// No receiver: an associated function.
    Absent,
    /// `&self`.
    Shared,
    /// `&mut self`.
    Exclusive,
    /// `self`, which the bindings cannot express.
    ByValue,
}

/// How an iterator hands out its items: `T`, `&T` or `&mut T`.
#[derive(Clone, Copy, PartialEq, Eq, Structural)]
pub enum ItemMode {
    Owned,
    Shared,
    Exclusive,
}

/// A method as written in an impl block, before it is classified.
pub struct RawMethod {
    pub name: String,
    pub receiver: Receiver,
    pub args: Vec<Arg>,
    /// Whether the declared result is `Self`.
    pub returns_self: bool,
    pub ret_ty: Option<TypeKind>,
    /// The native name after `=`, if any.
    pub native_name: Option<String>,
    /// The iterator attribute, if any: its item name and mode, or none where
    /// the attribute has no usable `Item`.
    pub iter: Option<Option<(String, ItemMode)>>,
    pub is_protected: bool,
}

pub open spec fn native_or(n: Option<String>, d: Seq<char>) -> Seq<char> {
    match n {
        Some(s) => s@,
        None => d,
    }
}

/// The classification of a written method: an iterator where it carries
/// the iterator attribute, a constructor where it returns `Self`, a plain
/// method otherwise; or the first rule it breaks.
pub open spec fn classify(m: RawMethod) -> Result<MethodV, BindFailure> {
    let n = m.name@;
    if m.iter == Some(None::<(String, ItemMode)>) {
        Err(BindFailure::MissingIterItem(n))
    } else if m.receiver == Receiver::ByValue {
        Err(BindFailure::PassByValueSelf(n))
    } else if m.iter is Some {
        let (item, mode) = m.iter->Some_0->Some_0;
        if m.args.len() > 0 {
            Err(BindFailure::IteratorWithArguments(n))
        } else if m.receiver == Receiver::Absent {
            Err(BindFailure::StaticIterator(n))
        } else if mode == ItemMode::Exclusive && m.receiver == Receiver::Shared {
            Err(BindFailure::MutableItemOnSharedReceiver(n))
        } else {
            Ok(MethodV::Iter {
                rust_name: n,
                yield_ty: crate::types::Ty::Primitive(item@),
                cpp_name: native_or(m.native_name, n),
                is_iter_mut: m.receiver == Receiver::Exclusive,
                is_owned: mode == ItemMode::Owned,
                is_item_mut: mode == ItemMode::Exclusive,
            })
        }
    } else if m.returns_self {
        if m.receiver != Receiver::Absent {
            Err(BindFailure::NonStaticConstructor(n))
        } else {
            Ok(MethodV::Ctor {
                rust_name: n,
                args: args_view(m.args@),
                cpp_name: native_or(m.native_name, n),
                is_user_defined: m.native_name is Some,
            })
        }
    } else {
        Ok(MethodV::Method {
            rust_name: n,
            cpp_name: native_or(m.native_name, n),
            args: args_view(m.args@),
            ret_ty: opt_ty_view(m.ret_ty),
            kind: match m.receiver {
                Receiver::Shared => MethodKind::Const,
                Receiver::Exclusive => MethodKind::Mutable,
                _ => MethodKind::Static,
            },
            is_protected: m.is_protected,
        })
    }
}

fn native_name_of(m: &RawMethod) -> (r: String)
    ensures
        r@ == native_or(m.native_name, m.name@),
{
    match &m.native_name {
        Some(s) => s.clone(),
        None => m.name.clone(),
    }
}

/// Classifies a written method, enforcing the receiver and iterator rules.
pub fn classify_method(m: RawMethod) -> (r: Result<MethodDef, BindError>)
    ensures
        match r {
            Ok(d) => classify(m) == Ok::<MethodV, BindFailure>(d@),
            Err(e) => classify(m) == Err::<MethodV, BindFailure>(e@),
        },
{
    let ghost g = m;
    if let Some(None) = &m.iter {
        return Err(BindError::MissingIterItem(m.name.clone()));
    }
    if m.receiver == Receiver::ByValue {
        return Err(BindError::PassByValueSelf(m.name.clone()));
    }
    let cpp_name = native_name_of(&m);
    match &m.iter {
        Some(Some((item, mode))) => {
            if m.args.len() > 0 {
                return Err(BindError::IteratorWithArguments(m.name.clone()));
            }
            if m.receiver == Receiver::Absent {
                return Err(BindError::StaticIterator(m.name.clone()));
            }
            if *mode == ItemMode::Exclusive && m.receiver == Receiver::Shared {
                return Err(BindError::MutableItemOnSharedReceiver(m.name.clone()));
            }
            return Ok(MethodDef::Iter(IterDef {
                rust_name: m.name.clone(),
                yield_ty: TypeKind::Primitive(item.clone()),
                cpp_name,
                is_iter_mut: m.receiver == Receiver::Exclusive,
                is_owned: *mode == ItemMode::Owned,
                is_item_mut: *mode == ItemMode::Exclusive,
            }));
        },
        _ => {},
    }
    let RawMethod { name, receiver, args, returns_self, ret_ty, native_name, iter: _, is_protected } = m;
    if returns_self {
        if receiver != Receiver::Absent {
            return Err(BindError::NonStaticConstructor(name));
        }
        let user = native_name.is_some();
        Ok(MethodDef::Ctor(CtorDef { rust_name: name, args, cpp_name, is_user_defined: user }))
    } else {
        let kind = match receiver {
            Receiver::Shared => MethodKind::Const,
            Receiver::Exclusive => MethodKind::Mutable,
            _ => MethodKind::Static,
        };
        Ok(MethodDef::Method(FnDef { rust_name: name, cpp_name, args, ret_ty, kind, is_protected }))
    }
}

} // verus!
