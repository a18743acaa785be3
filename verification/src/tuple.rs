use vstd::prelude::*;
use vstd::slice::slice_to_vec;

use crate::bridge::catch_exception;
use crate::bridge::CallOutcome;
use crate::error::Error;
use crate::obj::Obj;

verus! {

/// The library's model of a native tuple object: an immutable ordered
/// sequence of native values. The runtime owns the real allocation; this
/// type holds what host logic may read of it.
#[derive(Clone, PartialEq, Eq, Debug)]
pub struct Tuple {
    pub items: Vec<Obj>,
}

impl View for Tuple {
    type V = Seq<Obj>;

    open spec fn view(&self) -> Seq<Obj> {
        self.items@
    }
}

/// Allocate a new native tuple holding `args` in order, routed through the
/// native-to-host direction of the exception bridge so that an allocation
/// failure comes back as an ordinary `Err` rather than as a raise.
///
/// The allocator itself lives in the native runtime and may raise (out of
/// memory); `alloc_raises` stands for that event, observed at the boundary
/// and handed in by the caller. Construction is all or nothing: no partial
/// tuple is ever returned.
pub fn new_tuple(args: &[Obj], alloc_raises: bool) -> (r: Result<Tuple, Error>)
    ensures
        !alloc_raises ==> (r matches Ok(t) && t@ == args@),
        alloc_raises ==> (r matches Err(e) && e == Error::AllocationFailed),
{
    let outcome: CallOutcome<Tuple> = if alloc_raises {
        CallOutcome::Raised(Error::AllocationFailed)
    } else {
        CallOutcome::Returned(Tuple { items: slice_to_vec(args) })
    };
    let block = move || -> (b: CallOutcome<Tuple>)
        ensures
            b == outcome,
        {
            outcome
        };
    catch_exception(block)
}

} // verus!
