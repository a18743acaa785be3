use trampoline::error::Error;
use trampoline::obj::Obj;
use trampoline::tuple::new_tuple;

#[test]
fn empty_tuple() {
    let t = new_tuple(&[], false).unwrap();
    assert_eq!(t.items.len(), 0);
}

#[test]
fn tuple_keeps_values_in_order() {
    let args = [Obj(3), Obj(1), Obj(2)];
    let t = new_tuple(&args, false).unwrap();
    assert_eq!(t.items, vec![Obj(3), Obj(1), Obj(2)]);
}

#[test]
fn allocation_failure_is_an_error_value_not_a_raise() {
    let args = [Obj(3)];
    let r = new_tuple(&args, true);
    assert_eq!(r.unwrap_err(), Error::AllocationFailed);
}
