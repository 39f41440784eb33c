use glfw_rs::Context;
use glfw_rs::Event;
use glfw_rs::System;
use glfw_rs::bridge::route;

#[test]
fn key_event_routes_to_registered_key_callback() {
    let mut sys = System::new();
    let ctx = Context::init(&mut sys);
    let w = ctx.window(&mut sys.native, "keys", (10, 10)).expect("creation succeeds");
    w.set_key_callback(&mut sys.native, 11);
    let e = Event::Key { window: w.raw(), key: 65, scancode: 30, action: 1, mods: 0 };
    let d = route(&sys.native, &e).expect("a callback is registered");
    assert_eq!(d.callback, 11);
    assert_eq!(d.window.raw(), w.raw());
    assert!(!d.window.owns());
}

#[test]
fn cursor_event_routes_to_registered_mouse_callback() {
    let mut sys = System::new();
    let ctx = Context::init(&mut sys);
    let w = ctx.window(&mut sys.native, "mouse", (10, 10)).expect("creation succeeds");
    w.set_mouse_callback(&mut sys.native, 21);
    let e = Event::CursorPos { window: w.raw(), x: 100, y: 50 };
    let d = route(&sys.native, &e).expect("a callback is registered");
    assert_eq!(d.callback, 21);
    assert!(!d.window.owns());
}

#[test]
fn event_without_registered_callback_invokes_nothing() {
    let mut sys = System::new();
    let ctx = Context::init(&mut sys);
    let w = ctx.window(&mut sys.native, "quiet", (10, 10)).expect("creation succeeds");
    // A mouse callback does not catch key events.
    w.set_mouse_callback(&mut sys.native, 21);
    let e = Event::Key { window: w.raw(), key: 65, scancode: 30, action: 1, mods: 0 };
    assert!(route(&sys.native, &e).is_none());
}

#[test]
fn event_for_destroyed_window_invokes_nothing() {
    let mut sys = System::new();
    let ctx = Context::init(&mut sys);
    let w = ctx.window(&mut sys.native, "gone", (10, 10)).expect("creation succeeds");
    w.set_key_callback(&mut sys.native, 11);
    let h = w.raw();
    w.destroy(&mut sys.native);
    let e = Event::Key { window: h, key: 65, scancode: 30, action: 1, mods: 0 };
    assert!(route(&sys.native, &e).is_none());
}

#[test]
fn event_for_unknown_handle_invokes_nothing() {
    let mut sys = System::new();
    let _ctx = Context::init(&mut sys);
    let e = Event::Key { window: 99, key: 65, scancode: 30, action: 1, mods: 0 };
    assert!(route(&sys.native, &e).is_none());
    let z = Event::Key { window: 0, key: 65, scancode: 30, action: 1, mods: 0 };
    assert!(route(&sys.native, &z).is_none());
}

#[test]
fn pump_and_bridge_deliver_each_event_once() {
    let mut sys = System::new();
    let ctx = Context::init(&mut sys);
    let w = ctx.window(&mut sys.native, "pump", (10, 10)).expect("creation succeeds");
    w.set_key_callback(&mut sys.native, 11);
    sys.native.pending_events.push(Event::Key {
        window: w.raw(),
        key: 65,
        scancode: 30,
        action: 1,
        mods: 0,
    });
    sys.native.pending_events.push(Event::Key {
        window: w.raw(),
        key: 66,
        scancode: 48,
        action: 1,
        mods: 0,
    });
    let events = ctx.poll_events(&mut sys.native);
    let mut invocations: usize = 0;
    for e in &events {
        if route(&sys.native, e).is_some() {
            invocations += 1;
        }
    }
    assert_eq!(invocations, 2);
    assert!(sys.native.pending_events.is_empty());
}
