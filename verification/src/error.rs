use vstd::prelude::*;

verus! {

/// Message carried by the value error that bounded ingestion returns when an
/// iterable yields more items than the destination holds, or too few for an
/// exact-size array.
pub const INVALID_LENGTH: &'static str = "Invalid iterable length";

/// Error classification shared by every fallible operation of this layer.
/// A value of this type travels as an ordinary result while host logic runs;
/// the exception bridge turns it into a raised native exception exactly once,
/// at the frame that returns control to native code.
#[derive(Clone, Copy, PartialEq, Eq, Debug)]
pub enum Error {
    /// A required keyword-argument source pointer was the null sentinel.
    MissingKwargs,
    /// A value was structurally valid but unusable, with a static message.
    ValueError(&'static str),
    /// A native value could not be converted to the requested host type.
    TypeError,
    /// A native allocation raised; caught and carried as a host error value.
    AllocationFailed,
}

} // verus!
