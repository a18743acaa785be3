use vstd::prelude::*;
use vstd::slice::slice_index_get;
use vstd::slice::slice_subrange;

use crate::bridge::try_or_raise;
use crate::bridge::CallOutcome;
use crate::error::Error;
use crate::kwmap::KwMap;
use crate::obj::MapElem;
use crate::obj::Obj;

verus! {

/// The argument view reconstructed from a separate argument buffer: the
/// buffer itself when the native caller supplied one, and the empty sequence
/// when it passed the null sentinel, whatever count it declared alongside.
pub open spec fn args_view(args: Option<&[Obj]>) -> Seq<Obj> {
    match args {
        Some(buffer) => buffer@,
        None => Seq::empty(),
    }
}

/// The positional segment of a packed call buffer: its first `n_args`
/// elements, or empty when the buffer pointer was the null sentinel.
pub open spec fn inline_args_view(buffer: Option<&[Obj]>, n_args: usize) -> Seq<Obj> {
    match buffer {
        Some(b) => b@.subrange(0, n_args as int),
        None => Seq::empty(),
    }
}

/// The keyword segment of a packed call buffer: `n_kw` entries that begin
/// exactly at offset `n_args` from the start of the buffer, each entry two
/// consecutive words, key before value; empty when the buffer pointer was
/// the null sentinel.
pub open spec fn inline_kw_view(buffer: Option<&[Obj]>, n_args: usize, n_kw: usize) -> Seq<
    MapElem,
> {
    match buffer {
        Some(b) => Seq::new(
            n_kw as nat,
            |i: int|
                (MapElem { key: b@[n_args + 2 * i], value: b@[n_args + 2 * i + 1] }),
        ),
        None => Seq::empty(),
    }
}

/// Kwargs-only call adapter: reconstruct the keyword map view of a native
/// call, run `func` on it, and route the result through the exception
/// bridge. A null keyword source (`None`) is a missing-kwargs failure, not
/// an empty map, and is raised before host logic runs.
pub fn try_with_kwargs<F: FnOnce(&KwMap) -> Result<Obj, Error>>(
    kwargs: Option<&KwMap>,
    func: F,
) -> (r: CallOutcome<Obj>)
    requires
        kwargs matches Some(m) ==> call_requires(func, (m,)),
    ensures
        kwargs is None ==> r == CallOutcome::<Obj>::Raised(Error::MissingKwargs),
        kwargs matches Some(m) ==> match r {
            CallOutcome::Returned(v) => call_ensures(func, (m,), Ok(v)),
            CallOutcome::Raised(e) => call_ensures(func, (m,), Err(e)),
        },
{
    let res: Result<Obj, Error> = match kwargs {
        None => Err(Error::MissingKwargs),
        Some(m) => func(m),
    };
    let block = move || -> (b: Result<Obj, Error>)
        ensures
            b == res,
        {
            res
        };
    try_or_raise(block)
}

/// Args-and-kwargs call adapter for the calling convention that passes the
/// positional buffer and the keyword map separately. A null argument buffer
/// means no positional arguments, whatever `n_args` declares; a null keyword
/// source is a missing-kwargs failure raised before host logic runs. When
/// present, the buffer must hold exactly the declared count: that is the
/// native caller's asserted obligation.
pub fn try_with_args_and_kwargs<F: FnOnce(&[Obj], &KwMap) -> Result<Obj, Error>>(
    n_args: usize,
    args: Option<&[Obj]>,
    kwargs: Option<&KwMap>,
    func: F,
) -> (r: CallOutcome<Obj>)
    requires
        args matches Some(buffer) ==> buffer@.len() == n_args,
        kwargs matches Some(m) ==> forall|a: &[Obj]|
            a@ == args_view(args) ==> call_requires(func, (a, m)),
    ensures
        kwargs is None ==> r == CallOutcome::<Obj>::Raised(Error::MissingKwargs),
        kwargs matches Some(m) ==> match r {
            CallOutcome::Returned(v) => exists|a: &[Obj]|
                a@ == args_view(args) && call_ensures(func, (a, m), Ok(v)),
            CallOutcome::Raised(e) => exists|a: &[Obj]|
                a@ == args_view(args) && call_ensures(func, (a, m), Err(e)),
        },
{
    let empty: Vec<Obj> = Vec::new();
    let res: Result<Obj, Error> = match kwargs {
        None => Err(Error::MissingKwargs),
        Some(m) => {
            let a: &[Obj] = match args {
                Some(buffer) => buffer,
                None => empty.as_slice(),
            };
            func(a, m)
        },
    };
    let block = move || -> (b: Result<Obj, Error>)
        ensures
            b == res,
        {
            res
        };
    try_or_raise(block)
}

/// Args-and-kwargs call adapter for the packed calling convention: one
/// buffer holds `n_args` positional values followed immediately by `n_kw`
/// keyword entries of two words each. The adapter splits the buffer at
/// offset `n_args`, synthesizes a keyword map view over the flat entry
/// segment, runs `func` on both views, and routes the result through the
/// exception bridge. A null buffer yields two empty views: this variant has
/// no separate keyword source whose absence could be a failure. When
/// present, the buffer must hold exactly the declared layout: that is the
/// native caller's asserted obligation.
pub fn try_with_args_and_kwargs_inline<F: FnOnce(&[Obj], &KwMap) -> Result<Obj, Error>>(
    n_args: usize,
    n_kw: usize,
    args: Option<&[Obj]>,
    func: F,
) -> (r: CallOutcome<Obj>)
    requires
        args matches Some(buffer) ==> buffer@.len() == n_args + 2 * n_kw,
        forall|a: &[Obj], m: &KwMap|
            a@ == inline_args_view(args, n_args) && m@ == inline_kw_view(args, n_args, n_kw)
                ==> call_requires(func, (a, m)),
    ensures
        match r {
            CallOutcome::Returned(v) => exists|a: &[Obj], m: &KwMap|
                a@ == inline_args_view(args, n_args) && m@ == inline_kw_view(args, n_args, n_kw)
                    && call_ensures(func, (a, m), Ok(v)),
            CallOutcome::Raised(e) => exists|a: &[Obj], m: &KwMap|
                a@ == inline_args_view(args, n_args) && m@ == inline_kw_view(args, n_args, n_kw)
                    && call_ensures(func, (a, m), Err(e)),
        },
{
    let empty: Vec<Obj> = Vec::new();
    let mut elems: Vec<MapElem> = Vec::new();
    let args_slice: &[Obj] = match args {
        Some(buffer) => {
            let buffer_len = buffer.len();
            let mut i: usize = 0;
            while i < n_kw
                invariant
                    buffer_len == buffer@.len(),
                    buffer_len == n_args + 2 * n_kw,
                    i <= n_kw,
                    elems@.len() == i,
                    forall|j: int| 0 <= j < i ==> elems@[j] == (MapElem {
                        key: buffer@[n_args + 2 * j],
                        value: buffer@[n_args + 2 * j + 1],
                    }),
                decreases n_kw - i,
            {
                let key = *slice_index_get(buffer, n_args + 2 * i);
                let value = *slice_index_get(buffer, n_args + 2 * i + 1);
                elems.push(MapElem { key, value });
                i += 1;
            }
            slice_subrange(buffer, 0, n_args)
        },
        None => empty.as_slice(),
    };
    proof {
        assert(elems@ =~= inline_kw_view(args, n_args, n_kw));
    }
    let kw_map = KwMap::from_fixed(elems.as_slice());
    let res: Result<Obj, Error> = func(args_slice, &kw_map);
    let block = move || -> (b: Result<Obj, Error>)
        ensures
            b == res,
        {
            res
        };
    try_or_raise(block)
}

} // verus!
