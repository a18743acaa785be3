use vstd::prelude::*;
use vstd::slice::slice_index_get;

use crate::error::Error;
use crate::error::INVALID_LENGTH;
use crate::obj::Obj;

verus! {

/// `heapless::Vec`: a vector of at most `N` elements backed by fixed inline
/// storage, from the heapless crate. Opaque here; `BoundedVec` below holds
/// one and states what each operation this module calls does to its
/// contents.
#[verifier::external_type_specification]
#[verifier::external_body]
#[verifier::reject_recursive_types(T)]
pub struct ExHeaplessVec<T, const N: usize>(heapless::Vec<T, N>);

/// An array of exactly `N` elements, the result of exact-size ingestion.
pub type ExactArray<T, const N: usize> = [T; N];

/// A fixed-capacity ordered sequence of at most `N` elements, the
/// destination of bounded ingestion. The storage is a `heapless::Vec`; the
/// ghost field carries its contents as a mathematical sequence, which the
/// trusted method wrappers keep in step with what the heapless operations
/// do.
#[verifier::reject_recursive_types(T)]
pub struct BoundedVec<T, const N: usize> {
    inner: heapless::Vec<T, N>,
    elems: Ghost<Seq<T>>,
}

impl<T, const N: usize> View for BoundedVec<T, N> {
    type V = Seq<T>;

    closed spec fn view(&self) -> Seq<T> {
        self.elems@
    }
}

impl<T, const N: usize> BoundedVec<T, N> {
    /// Relies on heapless::Vec::new: the new vector is empty.
    #[verifier::external_body]
    pub fn new() -> (v: BoundedVec<T, N>)
        ensures
            v@ == Seq::<T>::empty(),
    {
        BoundedVec { inner: heapless::Vec::new(), elems: Ghost(Seq::empty()) }
    }

    /// Relies on heapless::Vec::push: appends the item when the vector holds
    /// fewer than `N` elements, and otherwise hands it back in `Err`,
    /// leaving the contents unchanged.
    #[verifier::external_body]
    pub fn push(&mut self, item: T) -> (r: Result<(), T>)
        ensures
            old(self)@.len() < N ==> (r is Ok && final(self)@ == old(self)@.push(item)),
            old(self)@.len() >= N ==> (r matches Err(back) && back == item && final(self)@ == old(
                self,
            )@),
    {
        self.inner.push(item)
    }

    /// Relies on heapless::Vec::into_array: converts the vector into an
    /// array of exactly `N` elements when the length matches, and hands the
    /// vector back unchanged in `Err` otherwise.
    #[verifier::external_body]
    pub fn into_array(self) -> (r: Result<ExactArray<T, N>, BoundedVec<T, N>>)
        ensures
            r matches Ok(arr) ==> (self@.len() == N && arr@ == self@),
            r matches Err(back) ==> (self@.len() != N && back@ == self@),
            self@.len() == N ==> r is Ok,
    {
        match self.inner.into_array() {
            Ok(arr) => Ok(arr),
            Err(inner) => Err(BoundedVec { inner, elems: Ghost(arbitrary()) }),
        }
    }

    /// Relies on heapless::Vec::as_slice: the initialized part of the
    /// storage, which is exactly the contents, in order.
    #[verifier::external_body]
    pub fn as_slice(&self) -> (s: &[T])
        ensures
            s@ == self@,
    {
        self.inner.as_slice()
    }
}

/// Fallible conversion from a native value: the contract every element type
/// of bounded ingestion supplies. `obj_convertible` says on which native
/// values the conversion succeeds, `from_obj_spec` what it yields there, and
/// `from_obj_err` the classification a failure surfaces, which ingestion
/// propagates verbatim.
pub trait TryFromObj: Sized {
    spec fn obj_convertible(obj: Obj) -> bool;

    spec fn from_obj_spec(obj: Obj) -> Self;

    spec fn from_obj_err(obj: Obj) -> Error;

    fn try_from_obj(obj: Obj) -> (r: Result<Self, Error>)
        ensures
            Self::obj_convertible(obj) ==> (r matches Ok(v) && v == Self::from_obj_spec(obj)),
            !Self::obj_convertible(obj) ==> (r matches Err(e) && e == Self::from_obj_err(obj)),
    ;
}

impl TryFromObj for Obj {
    open spec fn obj_convertible(obj: Obj) -> bool {
        true
    }

    open spec fn from_obj_spec(obj: Obj) -> Obj {
        obj
    }

    open spec fn from_obj_err(obj: Obj) -> Error {
        Error::TypeError
    }

    fn try_from_obj(obj: Obj) -> (r: Result<Obj, Error>) {
        Ok(obj)
    }
}

impl TryFromObj for u8 {
    open spec fn obj_convertible(obj: Obj) -> bool {
        obj.0 <= u8::MAX
    }

    open spec fn from_obj_spec(obj: Obj) -> u8 {
        obj.0 as u8
    }

    open spec fn from_obj_err(obj: Obj) -> Error {
        Error::TypeError
    }

    fn try_from_obj(obj: Obj) -> (r: Result<u8, Error>) {
        if obj.0 <= u8::MAX as usize {
            Ok(obj.0 as u8)
        } else {
            Err(Error::TypeError)
        }
    }
}

/// Holds when every item before position `n` converts to `T`.
pub open spec fn prefix_convertible<T: TryFromObj>(items: Seq<Obj>, n: int) -> bool {
    forall|i: int| 0 <= i < n ==> #[trigger] T::obj_convertible(items[i])
}

/// Position of the first item that does not convert to `T`: item `k` fails
/// and everything before it converts.
pub open spec fn first_unconvertible<T: TryFromObj>(items: Seq<Obj>, k: int) -> bool {
    &&& 0 <= k < items.len()
    &&& !T::obj_convertible(items[k])
    &&& prefix_convertible::<T>(items, k)
}

/// The items converted to `T`, in order.
pub open spec fn converted<T: TryFromObj>(items: Seq<Obj>) -> Seq<T> {
    Seq::new(items.len(), |i: int| T::from_obj_spec(items[i]))
}

/// Drain the items a native iterable yielded into a vector of capacity `N`,
/// converting each to `T` in iteration order. `items` is the sequence the
/// native iteration protocol produced for the iterable, resolved at the
/// boundary. Capacity is a hard ceiling: a yield beyond it is a value error,
/// never a truncation, and a conversion failure propagates verbatim. All or
/// nothing: no partial result is ever returned.
pub fn iter_into_vec<T: TryFromObj, const N: usize>(items: &[Obj]) -> (r: Result<
    BoundedVec<T, N>,
    Error,
>)
    ensures
        items@.len() <= N && prefix_convertible::<T>(items@, items@.len() as int) ==> r is Ok,
        r matches Ok(v) ==> items@.len() <= N && prefix_convertible::<T>(
            items@,
            items@.len() as int,
        ) && v@ == converted::<T>(items@),
        r matches Err(e) ==> {
            ||| (exists|k: int|
                #[trigger] first_unconvertible::<T>(items@, k) && k <= N && e == T::from_obj_err(
                    items@[k],
                ))
            ||| (items@.len() > N && prefix_convertible::<T>(items@, N as int + 1) && e
                == Error::ValueError(INVALID_LENGTH))
        },
{
    let mut vec: BoundedVec<T, N> = BoundedVec::new();
    let mut idx: usize = 0;
    while idx < items.len()
        invariant
            idx <= items@.len(),
            idx <= N,
            prefix_convertible::<T>(items@, idx as int),
            vec@ == converted::<T>(items@.subrange(0, idx as int)),
            vec@.len() == idx,
        decreases items@.len() - idx,
    {
        let obj = *slice_index_get(items, idx);
        let item = match T::try_from_obj(obj) {
            Ok(item) => item,
            Err(e) => {
                proof {
                    assert(first_unconvertible::<T>(items@, idx as int));
                }
                return Err(e);
            },
        };
        match vec.push(item) {
            Ok(_) => {},
            Err(_) => {
                proof {
                    assert(prefix_convertible::<T>(items@, N as int + 1));
                }
                return Err(Error::ValueError(INVALID_LENGTH));
            },
        }
        idx += 1;
        proof {
            assert(converted::<T>(items@.subrange(0, idx as int)) =~= converted::<T>(
                items@.subrange(0, idx as int - 1),
            ).push(T::from_obj_spec(items@[idx as int - 1])));
        }
    }
    proof {
        assert(items@.subrange(0, idx as int) =~= items@);
    }
    Ok(vec)
}

/// Drain the items a native iterable yielded into an array of exactly `N`
/// elements of `T`. Succeeds exactly when the iterable yielded `N` items and
/// every one of them converts; too few or too many items is a value error,
/// and a conversion failure propagates verbatim.
pub fn iter_into_array<T: TryFromObj, const N: usize>(items: &[Obj]) -> (r: Result<
    ExactArray<T, N>,
    Error,
>)
    ensures
        items@.len() == N && prefix_convertible::<T>(items@, N as int) ==> r is Ok,
        r matches Ok(arr) ==> items@.len() == N && prefix_convertible::<T>(items@, N as int)
            && arr@ == converted::<T>(items@),
        r matches Err(e) ==> {
            ||| (exists|k: int|
                #[trigger] first_unconvertible::<T>(items@, k) && k <= N && e == T::from_obj_err(
                    items@[k],
                ))
            ||| (items@.len() < N && prefix_convertible::<T>(items@, items@.len() as int) && e
                == Error::ValueError(INVALID_LENGTH))
            ||| (items@.len() > N && prefix_convertible::<T>(items@, N as int + 1) && e
                == Error::ValueError(INVALID_LENGTH))
        },
{
    let vec: BoundedVec<T, N> = match iter_into_vec(items) {
        Ok(vec) => vec,
        Err(e) => {
            return Err(e);
        },
    };
    match vec.into_array() {
        Ok(arr) => Ok(arr),
        Err(_) => Err(Error::ValueError(INVALID_LENGTH)),
    }
}

} // verus!
