use vstd::prelude::*;

verus! {

/// A native runtime value: one machine word, owned by the runtime's
/// allocator. Host logic treats it as opaque except where a declared
/// conversion gives it meaning.
#[derive(Clone, Copy, PartialEq, Eq, Structural, Debug)]
pub struct Obj(pub usize);

/// One key/value entry of a keyword map, laid out as two consecutive native
/// words, exactly as the runtime packs keyword data behind the positional
/// arguments of an inline call.
#[derive(Clone, Copy, PartialEq, Eq, Structural, Debug)]
pub struct MapElem {
    pub key: Obj,
    pub value: Obj,
}

} // verus!
