use vstd::prelude::*;

use crate::error::Error;

verus! {

/// The outcome of one call that crosses the language boundary: either control
/// comes back to native code with a value, or the native exception mechanism
/// was engaged with an error classification. `Raised` stands for the
/// non-local transfer the runtime performs on a raise; it is terminal for the
/// frame that produced it, and the caller must hand it straight back to
/// native code rather than resume host logic after it.
#[derive(Clone, Copy, PartialEq, Eq, Debug)]
pub enum CallOutcome<T> {
    Returned(T),
    Raised(Error),
}

/// Host-to-native direction of the exception bridge: run host logic and, on
/// failure, convert the error into a raised native exception. On success the
/// closure's value goes back to the native caller unmodified. Meant only for
/// the outermost frame of a call about to return to native code: a `Raised`
/// outcome never resumes host logic.
pub fn try_or_raise<T, F: FnOnce() -> Result<T, Error>>(func: F) -> (r: CallOutcome<T>)
    requires
        call_requires(func, ()),
    ensures
        r matches CallOutcome::Returned(v) ==> call_ensures(func, (), Ok(v)),
        r matches CallOutcome::Raised(e) ==> call_ensures(func, (), Err(e)),
{
    match func() {
        Ok(v) => CallOutcome::Returned(v),
        Err(e) => CallOutcome::Raised(e),
    }
}

/// Native-to-host direction of the exception bridge: run a closure that
/// stands for a call into native allocation or runtime routines, and convert
/// a raise during that call into an ordinary `Err`, so host logic can treat
/// a native failure (out of memory, say) as a value rather than as an
/// uncontrolled transfer. A normal return comes back as `Ok`.
pub fn catch_exception<T, F: FnOnce() -> CallOutcome<T>>(func: F) -> (r: Result<T, Error>)
    requires
        call_requires(func, ()),
    ensures
        r matches Ok(v) ==> call_ensures(func, (), CallOutcome::Returned(v)),
        r matches Err(e) ==> call_ensures(func, (), CallOutcome::Raised(e)),
{
    match func() {
        CallOutcome::Returned(v) => Ok(v),
        CallOutcome::Raised(e) => Err(e),
    }
}

} // verus!
