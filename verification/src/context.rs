//! The context singleton: one-time initialization of the native library,
//! global configuration, and the event pump.
//!
//! The process-wide once-cell that guards initialization is modelled
//! explicitly: a [`System`] couples the native layer's state with the flag
//! saying whether the singleton exists.  [`Context::init`] initializes the
//! native library on the first call only and hands back the marker on
//! every call; [`Context::get`] observes the flag without ever triggering
//! initialization.

use vstd::prelude::*;

use crate::native::Event;
use crate::native::GLFW_CONTEXT_VERSION_MAJOR;
use crate::native::GLFW_CONTEXT_VERSION_MINOR;
use crate::native::GLFW_OPENGL_CORE_PROFILE;
use crate::native::GLFW_OPENGL_PROFILE;
use crate::native::NativeApi;
use crate::window::Window;
use crate::window::spec_created;

verus! {

/// The native layer together with the once-cell that guards the context
/// singleton.
pub struct System {
    /// The native layer's state.
    pub native: NativeApi,
    /// Whether the singleton has been created — the state of the once-cell.
    pub context_created: bool,
}

impl System {
    /// Well-formedness: the singleton exists exactly when the native
    /// library is initialized, native initialization ran exactly once for
    /// it and never otherwise, teardown has not run, and the native layer
    /// itself is well-formed.
    pub open spec fn wf(self) -> bool {
        &&& self.native.wf()
        &&& (self.context_created <==> self.native.initialized)
        &&& self.native.init_calls == if self.context_created {
            1int
        } else {
            0int
        }
        &&& self.native.terminate_calls == 0
    }

    /// A fresh system: a fresh native layer and no singleton.
    pub fn new() -> (s: System)
        ensures
            s.wf(),
            !s.context_created,
            !s.native.initialized,
            s.native.init_calls == 0,
            s.native.terminate_calls == 0,
            s.native.windows@.len() == 0,
            s.native.create_calls == 0,
            !s.native.create_fails,
            s.native.primary_monitor is None,
            s.native.error_callback is None,
            s.native.current_context is None,
            s.native.records_allocated == 0,
            s.native.records_freed == 0,
            s.native.pending_events@.len() == 0,
            s.native.symbols@.len() == 0,
    {
        System { native: NativeApi::new(), context_created: false }
    }
}

/// What one `init` call does to the system: nothing when the singleton
/// already exists; otherwise it runs native initialization once and
/// creates the singleton.
pub open spec fn spec_init(s: System) -> System {
    if s.context_created {
        s
    } else {
        System {
            context_created: true,
            native: NativeApi {
                initialized: true,
                init_calls: (s.native.init_calls + 1) as u64,
                ..s.native
            },
        }
    }
}

/// `init` applied `n` times in a row.
pub open spec fn spec_init_times(s: System, n: nat) -> System
    decreases n,
{
    if n == 0 {
        s
    } else {
        spec_init(spec_init_times(s, (n - 1) as nat))
    }
}

/// Initialization idempotence: any run of one or more `init` calls leaves
/// the system exactly as a single call does, with the singleton in place
/// and native initialization having run exactly once.
pub proof fn lemma_init_idempotent(s: System, n: nat)
    requires
        s.wf(),
        n >= 1,
    ensures
        spec_init_times(s, n) == spec_init(s),
        spec_init_times(s, n).wf(),
        spec_init_times(s, n).context_created,
        spec_init_times(s, n).native.init_calls == 1,
    decreases n,
{
    assert(spec_init_times(s, 0) == s);
    assert(spec_init_times(s, n) == spec_init(spec_init_times(s, (n - 1) as nat)));
    if s.context_created {
        assert(spec_init(s) == s);
    } else {
        assert(spec_init(s).native.init_calls == 1);
    }
    assert(spec_init(s).wf());
    if n > 1 {
        lemma_init_idempotent(s, (n - 1) as nat);
        assert(spec_init_times(s, n) == spec_init(spec_init(s)));
        assert(spec_init(spec_init(s)) == spec_init(s));
    }
}

/// The context singleton: its existence means "the native library is
/// initialized".
pub struct Context {
    hidden: (),
}

impl Context {
    /// Initialize the singleton, or just get it if it already exists.
    /// Native initialization runs on the first call only; every call
    /// returns the one context.
    pub fn init(sys: &mut System) -> (c: Context)
        requires
            old(sys).wf(),
        ensures
            final(sys).wf(),
            *final(sys) == spec_init(*old(sys)),
            final(sys).context_created,
            final(sys).native.init_calls == 1,
    {
        if !sys.context_created {
            sys.native.initialized = true;
            sys.native.init_calls = sys.native.init_calls + 1;
            sys.context_created = true;
        }
        Context { hidden: () }
    }

    /// The singleton if it exists, `None` otherwise.  Never triggers
    /// initialization — the system is not even mutable here.
    pub fn get(sys: &System) -> (r: Option<Context>)
        ensures
            r is Some <==> sys.context_created,
    {
        if sys.context_created {
            Some(Context { hidden: () })
        } else {
            None
        }
    }

    /// Tear the system down, as process teardown of the singleton does:
    /// when the singleton exists, native teardown runs exactly once;
    /// otherwise there is nothing to shut down.  Consuming the system makes
    /// a second teardown unwritable.
    pub fn shutdown(sys: System) -> (n: NativeApi)
        requires
            sys.wf(),
        ensures
            sys.context_created ==> n == (NativeApi {
                initialized: false,
                terminate_calls: (sys.native.terminate_calls + 1) as u64,
                ..sys.native
            }) && n.terminate_calls == 1,
            !sys.context_created ==> n == sys.native,
    {
        let created = sys.context_created;
        let mut n = sys.native;
        if created {
            n.initialized = false;
            n.terminate_calls = n.terminate_calls + 1;
        }
        n
    }

    /// Drain the pending events and hand them to the caller for dispatch;
    /// returns immediately.
    pub fn poll_events(&self, native: &mut NativeApi) -> (events: Vec<Event>)
        requires
            old(native).wf(),
        ensures
            final(native).wf(),
            events@ == old(native).pending_events@,
            final(native).pending_events@.len() == 0,
            *final(native) == (NativeApi {
                pending_events: final(native).pending_events,
                ..*old(native)
            }),
    {
        let mut events: Vec<Event> = Vec::new();
        core::mem::swap(&mut events, &mut native.pending_events);
        events
    }

    /// Drain the pending events and hand them to the caller for dispatch.
    /// Against the real native layer this blocks the calling thread until
    /// at least one event has arrived or a timeout elapsed; what it does to
    /// the observable state is exactly what [`Context::poll_events`] does.
    pub fn wait_events(&self, native: &mut NativeApi) -> (events: Vec<Event>)
        requires
            old(native).wf(),
        ensures
            final(native).wf(),
            events@ == old(native).pending_events@,
            final(native).pending_events@.len() == 0,
            *final(native) == (NativeApi {
                pending_events: final(native).pending_events,
                ..*old(native)
            }),
    {
        let mut events: Vec<Event> = Vec::new();
        core::mem::swap(&mut events, &mut native.pending_events);
        events
    }

    /// Hand the buffer-swap interval to the native layer; fire and forget.
    pub fn set_swap_interval(&self, native: &mut NativeApi, interval: i32)
        requires
            old(native).wf(),
        ensures
            final(native).wf(),
            *final(native) == (NativeApi { swap_interval: interval, ..*old(native) }),
    {
        native.swap_interval = interval;
    }

    /// Install the process-wide error callback, overwriting any previous
    /// one.  Asynchronous native errors are observable only through it;
    /// without one the native layer drops them silently.
    pub fn set_handler(&self, native: &mut NativeApi, handler: u64)
        requires
            old(native).wf(),
        ensures
            final(native).wf(),
            *final(native) == (NativeApi { error_callback: Some(handler), ..*old(native) }),
    {
        native.error_callback = Some(handler);
    }

    /// Create a window inside this context.
    pub fn window(&self, native: &mut NativeApi, name: &str, size: (i32, i32)) -> (r: Option<
        Window,
    >)
        requires
            old(native).wf(),
            old(native).windows@.len() < usize::MAX,
            old(native).create_calls < u64::MAX,
        ensures
            final(native).wf(),
            spec_created(*old(native), *final(native), r, name, size.0, size.1, false),
    {
        Window::new(native, name, size)
    }

    /// Create a fullscreen window inside this context, sized to the
    /// primary output device's current video mode; fails when no output
    /// device is available.
    pub fn window_fullscreen(&self, native: &mut NativeApi, name: &str) -> (r: Option<Window>)
        requires
            old(native).wf(),
            old(native).windows@.len() < usize::MAX,
            old(native).create_calls < u64::MAX,
        ensures
            final(native).wf(),
            old(native).primary_monitor is None ==> r is None && *final(native) == *old(native),
            old(native).primary_monitor matches Some(mode) ==> spec_created(
                *old(native),
                *final(native),
                r,
                name,
                mode.width,
                mode.height,
                true,
            ),
    {
        Window::new_fullscreen(native, name)
    }

    /// Set the client-API version the next created window should ask for,
    /// with the core profile.  This mutates the native layer's global hint
    /// state; to take effect it must run before window creation — an
    /// ordering the type system does not enforce.
    pub fn gl_version(&self, native: &mut NativeApi, major: i32, minor: i32)
        requires
            old(native).wf(),
        ensures
            final(native).wf(),
            *final(native) == (NativeApi {
                hint_context_major: major,
                hint_context_minor: minor,
                hint_opengl_profile: GLFW_OPENGL_CORE_PROFILE,
                ..*old(native)
            }),
    {
        native.window_hint(GLFW_CONTEXT_VERSION_MAJOR, major);
        native.window_hint(GLFW_CONTEXT_VERSION_MINOR, minor);
        native.window_hint(GLFW_OPENGL_PROFILE, GLFW_OPENGL_CORE_PROFILE);
    }
}

} // verus!
