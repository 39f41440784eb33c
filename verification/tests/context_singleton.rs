use glfw_rs::Context;
use glfw_rs::Event;
use glfw_rs::System;

#[test]
fn get_before_init_is_absent() {
    let sys = System::new();
    assert!(Context::get(&sys).is_none());
    assert_eq!(sys.native.init_calls, 0);
    assert!(!sys.native.initialized);
}

#[test]
fn init_initializes_native_layer_once() {
    let mut sys = System::new();
    let _ctx = Context::init(&mut sys);
    assert!(sys.native.initialized);
    assert_eq!(sys.native.init_calls, 1);
    assert!(Context::get(&sys).is_some());
}

#[test]
fn repeated_init_is_idempotent() {
    let mut sys = System::new();
    let _c1 = Context::init(&mut sys);
    let _c2 = Context::init(&mut sys);
    let _c3 = Context::init(&mut sys);
    assert_eq!(sys.native.init_calls, 1);
    assert!(sys.native.initialized);
    assert!(sys.context_created);
}

#[test]
fn get_never_triggers_initialization() {
    let sys = System::new();
    let first = Context::get(&sys);
    let second = Context::get(&sys);
    assert!(first.is_none());
    assert!(second.is_none());
    assert_eq!(sys.native.init_calls, 0);
}

#[test]
fn shutdown_terminates_exactly_once() {
    let mut sys = System::new();
    let _ctx = Context::init(&mut sys);
    let native = Context::shutdown(sys);
    assert_eq!(native.terminate_calls, 1);
    assert!(!native.initialized);
    assert_eq!(native.init_calls, 1);
}

#[test]
fn shutdown_without_init_terminates_nothing() {
    let sys = System::new();
    let native = Context::shutdown(sys);
    assert_eq!(native.terminate_calls, 0);
}

#[test]
fn set_handler_overwrites_previous_handler() {
    let mut sys = System::new();
    let ctx = Context::init(&mut sys);
    ctx.set_handler(&mut sys.native, 7);
    assert_eq!(sys.native.error_callback, Some(7));
    ctx.set_handler(&mut sys.native, 9);
    assert_eq!(sys.native.error_callback, Some(9));
}

#[test]
fn set_swap_interval_reaches_native_layer() {
    let mut sys = System::new();
    let ctx = Context::init(&mut sys);
    ctx.set_swap_interval(&mut sys.native, 1);
    assert_eq!(sys.native.swap_interval, 1);
}

#[test]
fn gl_version_sets_version_and_core_profile_hints() {
    let mut sys = System::new();
    let ctx = Context::init(&mut sys);
    ctx.gl_version(&mut sys.native, 3, 3);
    assert_eq!(sys.native.hint_context_major, 3);
    assert_eq!(sys.native.hint_context_minor, 3);
    assert_eq!(sys.native.hint_opengl_profile, 0x0003_2001);
}

#[test]
fn poll_events_drains_the_queue_in_order() {
    let mut sys = System::new();
    let ctx = Context::init(&mut sys);
    let a = Event::Key { window: 1, key: 65, scancode: 30, action: 1, mods: 0 };
    let b = Event::CursorPos { window: 1, x: 10, y: 20 };
    sys.native.pending_events.push(a);
    sys.native.pending_events.push(b);
    let events = ctx.poll_events(&mut sys.native);
    assert_eq!(events, vec![a, b]);
    assert!(sys.native.pending_events.is_empty());
    let again = ctx.poll_events(&mut sys.native);
    assert!(again.is_empty());
}

#[test]
fn wait_events_drains_the_queue() {
    let mut sys = System::new();
    let ctx = Context::init(&mut sys);
    let a = Event::Key { window: 1, key: 32, scancode: 57, action: 0, mods: 2 };
    sys.native.pending_events.push(a);
    let events = ctx.wait_events(&mut sys.native);
    assert_eq!(events, vec![a]);
    assert!(sys.native.pending_events.is_empty());
}
