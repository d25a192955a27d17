use vstd::prelude::*;

verus! {

/// Recoverable failures of the foreign-object layer.
#[derive(Debug, Clone, PartialEq, Eq)]
pub enum Error {
    /// A shared borrow was requested while an exclusive one is held.
    BorrowError,
    /// An exclusive borrow was requested while any other borrow is held.
    BorrowMutError,
    /// A handle was accessed as a native type it does not hold.
    UserDataTypeMismatch,
    /// The native payload has already been torn down by its finalizer.
    UserDataDestructed,
    /// The handle does not refer to a box of this heap.
    UserDataNotFound,
    /// Native code holds as many handles to the box as can be counted.
    TooManyReferences,
    /// No user value is stored on the handle.
    NoUserValue,
    /// A value could not be converted to the requested type.
    FromValueConversion { from: String, to: String },
    /// A named field is neither a method nor resolved by an index hook.
    NoSuchField { name: String },
    /// A looked-up field is not callable.
    NotCallable { name: String, kind: String },
    /// A metamethod slot is not registered for the operand's type.
    NoMetaMethod,
    /// The handle's native type has no dispatch table.
    NotUserData,
    /// A native closure's own failure, forwarded as is.
    RuntimeError(String),
}

} // verus!
