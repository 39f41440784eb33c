//! The callback bridge: from a raw event back into the safe wrappers.
//!
//! The native event pump hands back only a raw window handle and primitive
//! arguments.  Before user code may touch the handle ownership model or
//! the attachment store, the raw handle must become a *borrowing*
//! [`Window`] — never an owning one, since the pump does not transfer
//! ownership.  [`route`] performs exactly that step: it pairs one
//! delivered event with the callback registered for its kind on the window
//! it concerns, and reconstructs the borrowing handle; an event for a dead
//! window or an unregistered kind invokes nothing.  No buffering happens
//! here: one event yields at most one invocation.

use vstd::prelude::*;

use crate::native::Event;
use crate::native::NativeApi;
use crate::window::Window;

verus! {

/// One planned callback invocation: the registered callback together with
/// a borrowing handle reconstructed from the event's raw handle.
pub struct Dispatch {
    /// The callback the invocation goes to.
    pub callback: u64,
    /// A borrowing wrapper for the window the event concerns.
    pub window: Window,
}

/// The callback registered for an event's kind on the window it concerns:
/// `None` when the window is gone or no callback of that kind is
/// registered, in which case the native layer invokes nothing.
pub open spec fn spec_registered(native: NativeApi, event: Event) -> Option<u64> {
    let h = event.spec_window();
    if !native.window_alive(h) {
        None
    } else {
        match event {
            Event::Key { .. } => native.win(h).key_callback,
            Event::CursorPos { .. } => native.win(h).mouse_callback,
        }
    }
}

/// Turn one delivered event into at most one synchronous invocation: the
/// registered callback of the matching kind, handed a handle that merely
/// borrows the window — destroying it will release nothing.
pub fn route(native: &NativeApi, event: &Event) -> (r: Option<Dispatch>)
    requires
        native.wf(),
    ensures
        r is Some <==> spec_registered(*native, *event) is Some,
        r matches Some(d) ==> {
            &&& Some(d.callback) == spec_registered(*native, *event)
            &&& d.window.wf()
            &&& d.window.spec_raw() == event.spec_window()
            &&& !d.window.owns_resource()
        },
{
    let h = event.window_handle();
    let n: usize = native.windows.len();
    if h == 0 || h > (n as u64) {
        return None;
    }
    let i = native.win_index(h);
    if !native.windows[i].alive {
        return None;
    }
    let cb = match event {
        Event::Key { .. } => native.windows[i].key_callback,
        Event::CursorPos { .. } => native.windows[i].mouse_callback,
    };
    match cb {
        None => None,
        Some(c) => Some(Dispatch { callback: c, window: Window::from_raw(h) }),
    }
}

} // verus!
