use vstd::prelude::*;
use vstd::slice::slice_to_vec;

use crate::obj::MapElem;

verus! {

/// Read-only keyword map view handed to host logic by a call adapter: an
/// association of native keys to native values. It either mirrors an
/// externally owned map object or is synthesized over the flat element
/// segment of a packed call buffer. Key uniqueness is the producer's
/// obligation and insertion order carries no meaning; this layer validates
/// neither.
#[derive(Clone, PartialEq, Eq, Debug)]
pub struct KwMap {
    elems: Vec<MapElem>,
}

impl View for KwMap {
    type V = Seq<MapElem>;

    closed spec fn view(&self) -> Seq<MapElem> {
        self.elems@
    }
}

impl KwMap {
    /// Build a keyword map view over a fixed flat array of entries, in the
    /// order the array gives them.
    pub fn from_fixed(elems: &[MapElem]) -> (m: KwMap)
        ensures
            m@ == elems@,
    {
        KwMap { elems: slice_to_vec(elems) }
    }

    /// Number of keyword entries.
    pub fn len(&self) -> (n: usize)
        ensures
            n == self@.len(),
    {
        self.elems.len()
    }

    /// The entry at position `i` of the underlying element array.
    pub fn elem_at(&self, i: usize) -> (e: MapElem)
        requires
            i < self@.len(),
        ensures
            e == self@[i as int],
    {
        self.elems[i]
    }
}

} // verus!
