use vstd::prelude::*;

verus! {

/// The mode axis of a handle: whether native mutation may go through it.
pub trait Mode {
    spec fn allows_mutation() -> bool;
}

/// Read-only handles.
pub struct Const;

/// Handles through which the native object may be mutated.
pub struct Mut;

impl Mode for Const {
    open spec fn allows_mutation() -> bool {
        false
    }
}

impl Mode for Mut {
    open spec fn allows_mutation() -> bool {
        true
    }
}

/// A modeled type bound to its low-level representation.
pub trait CppClass {
    type FfiType;
}

/// The storage axis of a handle: borrowed or exclusively owning.
pub trait Storage {
    /// Whether a handle of this storage releases the native resource when dropped.
    spec fn releases() -> bool;

    /// Whether handles of this storage may be copied freely.
    spec fn copyable() -> bool;
}

/// A borrowed handle: copyable, never releases.
#[derive(Clone, Copy)]
pub struct Ref;

/// An owning handle: unique, releases exactly once.
pub struct Owned;

impl Storage for Ref {
    open spec fn releases() -> bool {
        false
    }

    open spec fn copyable() -> bool {
        true
    }
}

impl Storage for Owned {
    open spec fn releases() -> bool {
        true
    }

    open spec fn copyable() -> bool {
        false
    }
}

/// The three user-facing handle types of a modeled type.
pub trait CppTypeAliases {
    type Owned;
    type Ref;
    type Mut;
}

} // verus!
