use trampoline::adapters::try_with_args_and_kwargs;
use trampoline::adapters::try_with_args_and_kwargs_inline;
use trampoline::adapters::try_with_kwargs;
use trampoline::bridge::CallOutcome;
use trampoline::error::Error;
use trampoline::kwmap::KwMap;
use trampoline::obj::MapElem;
use trampoline::obj::Obj;

#[test]
fn kwargs_adapter_passes_map_to_closure() {
    let elems = [MapElem { key: Obj(1), value: Obj(2) }];
    let map = KwMap::from_fixed(&elems);
    let r = try_with_kwargs(Some(&map), |m| {
        assert_eq!(m.len(), 1);
        let e = m.elem_at(0);
        assert_eq!(e.key, Obj(1));
        assert_eq!(e.value, Obj(2));
        Ok(Obj(99))
    });
    assert_eq!(r, CallOutcome::Returned(Obj(99)));
}

#[test]
fn kwargs_adapter_null_source_is_missing_kwargs() {
    let mut called = false;
    let r = try_with_kwargs(None, |_m| {
        called = true;
        Ok(Obj(0))
    });
    assert_eq!(r, CallOutcome::Raised(Error::MissingKwargs));
    assert!(!called, "host logic must not run when kwargs are missing");
}

#[test]
fn kwargs_adapter_raises_closure_error() {
    let map = KwMap::from_fixed(&[]);
    let r = try_with_kwargs(Some(&map), |_m| Err(Error::TypeError));
    assert_eq!(r, CallOutcome::Raised(Error::TypeError));
}

#[test]
fn args_adapter_passes_buffer_and_map() {
    let buffer = [Obj(10), Obj(20), Obj(30)];
    let map = KwMap::from_fixed(&[]);
    let r = try_with_args_and_kwargs(3, Some(&buffer[..]), Some(&map), |args, m| {
        assert_eq!(args, &[Obj(10), Obj(20), Obj(30)]);
        assert_eq!(m.len(), 0);
        Ok(args[1])
    });
    assert_eq!(r, CallOutcome::Returned(Obj(20)));
}

#[test]
fn args_adapter_null_args_gives_empty_view_despite_count() {
    // Null argument pointer with a declared count of 5 and a valid, empty
    // keyword map: both views are empty, the closure runs, no error.
    let map = KwMap::from_fixed(&[]);
    let mut called = false;
    let r = try_with_args_and_kwargs(5, None, Some(&map), |args, m| {
        called = true;
        assert_eq!(args.len(), 0);
        assert_eq!(m.len(), 0);
        Ok(Obj(1))
    });
    assert_eq!(r, CallOutcome::Returned(Obj(1)));
    assert!(called);
}

#[test]
fn args_adapter_null_kwargs_is_missing_kwargs() {
    let buffer = [Obj(10)];
    let mut called = false;
    let r = try_with_args_and_kwargs(1, Some(&buffer[..]), None, |_args, _m| {
        called = true;
        Ok(Obj(0))
    });
    assert_eq!(r, CallOutcome::Raised(Error::MissingKwargs));
    assert!(!called, "host logic must not run when kwargs are missing");
}

#[test]
fn args_adapter_raises_closure_error() {
    let buffer = [Obj(10)];
    let map = KwMap::from_fixed(&[]);
    let r = try_with_args_and_kwargs(1, Some(&buffer[..]), Some(&map), |_args, _m| {
        Err(Error::ValueError("bad argument"))
    });
    assert_eq!(r, CallOutcome::Raised(Error::ValueError("bad argument")));
}

#[test]
fn inline_adapter_splits_buffer_at_declared_count() {
    // Two positional values, then two keyword entries of two words each.
    let buffer = [Obj(1), Obj(2), Obj(100), Obj(101), Obj(200), Obj(201)];
    let r = try_with_args_and_kwargs_inline(2, 2, Some(&buffer[..]), |args, m| {
        assert_eq!(args, &[Obj(1), Obj(2)]);
        assert_eq!(m.len(), 2);
        assert_eq!(m.elem_at(0), MapElem { key: Obj(100), value: Obj(101) });
        assert_eq!(m.elem_at(1), MapElem { key: Obj(200), value: Obj(201) });
        Ok(Obj(7))
    });
    assert_eq!(r, CallOutcome::Returned(Obj(7)));
}

#[test]
fn inline_adapter_null_buffer_gives_two_empty_views() {
    let mut called = false;
    let r = try_with_args_and_kwargs_inline(4, 3, None, |args, m| {
        called = true;
        assert_eq!(args.len(), 0);
        assert_eq!(m.len(), 0);
        Ok(Obj(5))
    });
    assert_eq!(r, CallOutcome::Returned(Obj(5)));
    assert!(called, "a null packed buffer is not an error in this variant");
}

#[test]
fn inline_adapter_kwargs_only_layout() {
    // No positional values: the keyword segment begins at offset zero.
    let buffer = [Obj(100), Obj(101)];
    let r = try_with_args_and_kwargs_inline(0, 1, Some(&buffer[..]), |args, m| {
        assert_eq!(args.len(), 0);
        assert_eq!(m.len(), 1);
        assert_eq!(m.elem_at(0), MapElem { key: Obj(100), value: Obj(101) });
        Ok(Obj(3))
    });
    assert_eq!(r, CallOutcome::Returned(Obj(3)));
}

#[test]
fn inline_adapter_raises_closure_error() {
    let buffer = [Obj(1)];
    let r = try_with_args_and_kwargs_inline(1, 0, Some(&buffer[..]), |_args, _m| {
        Err(Error::ValueError("bad"))
    });
    assert_eq!(r, CallOutcome::Raised(Error::ValueError("bad")));
}
