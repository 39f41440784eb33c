use glfw_rs::Context;
use glfw_rs::System;
use glfw_rs::UserData;
use glfw_rs::Window;

const INT_TAG: u64 = 1;
const FLOAT_TAG: u64 = 2;

#[test]
fn retrieval_under_matching_tag_returns_value() {
    let mut sys = System::new();
    let ctx = Context::init(&mut sys);
    let w = ctx.window(&mut sys.native, "data", (10, 10)).expect("creation succeeds");
    w.set_user_data(&mut sys.native, INT_TAG, 5);
    assert_eq!(w.get_user_data(&sys.native, INT_TAG), Some(5));
}

#[test]
fn retrieval_under_mismatched_tag_is_absent() {
    let mut sys = System::new();
    let ctx = Context::init(&mut sys);
    let w = ctx.window(&mut sys.native, "data", (10, 10)).expect("creation succeeds");
    w.set_user_data(&mut sys.native, INT_TAG, 5);
    assert_eq!(w.get_user_data(&sys.native, FLOAT_TAG), None);
    assert_eq!(w.get_user_data(&sys.native, INT_TAG), Some(5));
}

#[test]
fn retrieval_from_empty_slot_is_absent() {
    let mut sys = System::new();
    let ctx = Context::init(&mut sys);
    let w = ctx.window(&mut sys.native, "data", (10, 10)).expect("creation succeeds");
    assert_eq!(w.get_user_data(&sys.native, INT_TAG), None);
    assert_eq!(w.get_user_data_ptr(&sys.native), None);
}

#[test]
fn replacement_releases_the_prior_record() {
    let mut sys = System::new();
    let ctx = Context::init(&mut sys);
    let w = ctx.window(&mut sys.native, "data", (10, 10)).expect("creation succeeds");
    w.set_user_data(&mut sys.native, INT_TAG, 5);
    assert_eq!(sys.native.records_allocated, 1);
    assert_eq!(sys.native.records_freed, 0);
    w.set_user_data(&mut sys.native, FLOAT_TAG, 9);
    // The record of the first attachment was released, not leaked: two
    // allocations, one release, one record live.
    assert_eq!(sys.native.records_allocated, 2);
    assert_eq!(sys.native.records_freed, 1);
    assert_eq!(w.get_user_data(&sys.native, FLOAT_TAG), Some(9));
    assert_eq!(w.get_user_data(&sys.native, INT_TAG), None);
}

#[test]
fn slot_is_shared_between_owned_and_borrowed_handles() {
    let mut sys = System::new();
    let ctx = Context::init(&mut sys);
    let w = ctx.window(&mut sys.native, "shared", (10, 10)).expect("creation succeeds");
    w.set_user_data(&mut sys.native, INT_TAG, 20);
    let borrowed = Window::from_raw(w.raw());
    assert_eq!(borrowed.get_user_data(&sys.native, INT_TAG), Some(20));
    assert_eq!(
        borrowed.get_user_data_ptr(&sys.native),
        Some(UserData { dtype: INT_TAG, ptr: 20 })
    );
}

#[test]
fn owned_destruction_releases_the_attachment_record() {
    let mut sys = System::new();
    let ctx = Context::init(&mut sys);
    let w = ctx.window(&mut sys.native, "data", (10, 10)).expect("creation succeeds");
    w.set_user_data(&mut sys.native, INT_TAG, 5);
    w.destroy(&mut sys.native);
    assert_eq!(sys.native.records_allocated, 1);
    assert_eq!(sys.native.records_freed, 1);
    assert_eq!(sys.native.windows[0].slot, None);
}

#[test]
fn borrowed_destruction_keeps_the_attachment_record() {
    let mut sys = System::new();
    let ctx = Context::init(&mut sys);
    let w = ctx.window(&mut sys.native, "data", (10, 10)).expect("creation succeeds");
    w.set_user_data(&mut sys.native, INT_TAG, 5);
    let borrowed = Window::from_raw(w.raw());
    borrowed.destroy(&mut sys.native);
    assert_eq!(sys.native.records_freed, 0);
    assert_eq!(w.get_user_data(&sys.native, INT_TAG), Some(5));
}

#[test]
fn destruction_without_attachment_frees_no_record() {
    let mut sys = System::new();
    let ctx = Context::init(&mut sys);
    let w = ctx.window(&mut sys.native, "plain", (10, 10)).expect("creation succeeds");
    w.destroy(&mut sys.native);
    assert_eq!(sys.native.records_allocated, 0);
    assert_eq!(sys.native.records_freed, 0);
}
