//! An explicit model of the native boundary.
//!
//! The real native library is reached through a flat call boundary of raw
//! pointers and cannot be verified.  This module gives the library an
//! explicit state value, [`NativeApi`], that records exactly what the layer
//! can observe and change through that boundary: whether the library is
//! initialized, the windows it has created and destroyed, each window's
//! single user-data slot together with the bookkeeping records the
//! attachment store plants there, the installed callbacks, the pending
//! event queue, and the symbol table of the context's entry-point resolver.
//!
//! Every operation of the safety layer takes a [`NativeApi`] and its
//! contract states the operation's full effect on it.  A test drives the
//! layer against this value directly — it is the stubbed native layer —
//! while the unverified glue outside this crate performs the same calls
//! against the real library.

use vstd::prelude::*;

verus! {

/// Native window-hint target: the context's major client-API version.
pub const GLFW_CONTEXT_VERSION_MAJOR: i32 = 0x0002_2002;

/// Native window-hint target: the context's minor client-API version.
pub const GLFW_CONTEXT_VERSION_MINOR: i32 = 0x0002_2003;

/// Native window-hint target: which client-API profile to request.
pub const GLFW_OPENGL_PROFILE: i32 = 0x0002_2008;

/// Native window-hint value: the core client-API profile.
pub const GLFW_OPENGL_CORE_PROFILE: i32 = 0x0003_2001;

/// One entry of the resolver's symbol table: an entry-point name (the bytes
/// of the name, without a terminator) and its non-zero address.
#[derive(Debug)]
pub struct SymbolDef {
    pub name: Vec<u8>,
    pub addr: u64,
}

/// The video mode of an output device, as the native layer reports it.
#[derive(Clone, Copy, Debug, PartialEq, Eq, Structural)]
pub struct VideoMode {
    pub width: i32,
    pub height: i32,
}

/// The bookkeeping record the attachment store keeps in a window's single
/// user-data slot: a type tag together with one type-erased word standing
/// for the attached value.
#[derive(Clone, Copy, Debug, PartialEq, Eq, Structural)]
pub struct UserData {
    pub dtype: u64,
    pub ptr: u64,
}

/// An event the native layer hands to the pump, carrying the raw handle of
/// the window it concerns plus event-specific primitive arguments.
#[derive(Clone, Copy, Debug, PartialEq, Eq, Structural)]
pub enum Event {
    /// A key was pressed, repeated or released.
    Key { window: u64, key: i32, scancode: i32, action: i32, mods: i32 },
    /// The cursor moved.  The native layer reports the position as machine
    /// floats; the model carries the integral screen position.
    CursorPos { window: u64, x: i64, y: i64 },
}

impl Event {
    /// The raw handle of the window this event concerns.
    pub open spec fn spec_window(self) -> u64 {
        match self {
            Event::Key { window, .. } => window,
            Event::CursorPos { window, .. } => window,
        }
    }

    /// The raw handle of the window this event concerns.
    pub fn window_handle(&self) -> (h: u64)
        ensures
            h == self.spec_window(),
    {
        match self {
            Event::Key { window, .. } => *window,
            Event::CursorPos { window, .. } => *window,
        }
    }
}

/// The native layer's per-window state.
#[derive(Clone, Copy, Debug)]
pub struct NativeWindow {
    /// The window's raw handle; handle `k` sits at index `k - 1`.
    pub handle: u64,
    /// The width the window was created with.
    pub width: i32,
    /// The height the window was created with.
    pub height: i32,
    /// Whether the window was created against an output device.
    pub fullscreen: bool,
    /// Whether the native resource still exists.
    pub alive: bool,
    /// How many times the native release path ran for this window.
    pub destroy_calls: u64,
    /// The single user-data slot.
    pub slot: Option<UserData>,
    /// The native close-request flag.
    pub close_requested: bool,
    /// The registered key callback, if any (an opaque identifier).
    pub key_callback: Option<u64>,
    /// The registered cursor callback, if any (an opaque identifier).
    pub mouse_callback: Option<u64>,
    /// How many buffer swaps were requested for this window.
    pub swap_requests: u64,
}

/// How many records a window's slot holds: one if occupied, none if empty.
pub open spec fn slot_records(w: NativeWindow) -> nat {
    if w.slot is Some {
        1nat
    } else {
        0nat
    }
}

/// How many attachment records are live across all windows.
pub open spec fn occupied_count(ws: Seq<NativeWindow>) -> nat
    decreases ws.len(),
{
    if ws.len() == 0 {
        0nat
    } else {
        occupied_count(ws.drop_last()) + slot_records(ws.last())
    }
}

/// Appending a window adds exactly its own slot's records to the count.
pub proof fn lemma_occupied_push(ws: Seq<NativeWindow>, w: NativeWindow)
    ensures
        occupied_count(ws.push(w)) == occupied_count(ws) + slot_records(w),
{
    assert(ws.push(w).drop_last() =~= ws);
}

/// Replacing one window changes the count by that window's contribution
/// alone.
pub proof fn lemma_occupied_update(ws: Seq<NativeWindow>, i: int, w: NativeWindow)
    requires
        0 <= i < ws.len(),
    ensures
        occupied_count(ws.update(i, w)) + slot_records(ws[i]) == occupied_count(ws)
            + slot_records(w),
    decreases ws.len(),
{
    if i == ws.len() - 1 {
        assert(ws.update(i, w).drop_last() =~= ws.drop_last());
    } else {
        assert(ws.update(i, w).drop_last() =~= ws.drop_last().update(i, w));
        lemma_occupied_update(ws.drop_last(), i, w);
    }
}

/// Each window's slot contributes its records to the total count.
pub proof fn lemma_occupied_bound(ws: Seq<NativeWindow>, i: int)
    requires
        0 <= i < ws.len(),
    ensures
        occupied_count(ws) >= slot_records(ws[i]),
    decreases ws.len(),
{
    if i < ws.len() - 1 {
        lemma_occupied_bound(ws.drop_last(), i);
    }
}

/// The address a symbol table resolves a name to, or zero when the name is
/// not in the table.
pub open spec fn spec_lookup(syms: Seq<SymbolDef>, name: Seq<u8>) -> u64
    decreases syms.len(),
{
    if syms.len() == 0 {
        0u64
    } else if syms[0].name@ == name {
        syms[0].addr
    } else {
        spec_lookup(syms.drop_first(), name)
    }
}

/// Whether two byte strings hold the same bytes.
pub fn bytes_eq(a: &[u8], b: &[u8]) -> (r: bool)
    ensures
        r == (a@ == b@),
{
    if a.len() != b.len() {
        return false;
    }
    let mut i: usize = 0;
    while i < a.len()
        invariant
            i <= a@.len(),
            a@.len() == b@.len(),
            forall|j: int| 0 <= j < i ==> a@[j] == b@[j],
        decreases a@.len() - i,
    {
        if a[i] != b[i] {
            return false;
        }
        i = i + 1;
    }
    proof {
        assert(a@ =~= b@);
    }
    true
}

/// The native layer as the safety layer observes it, together with the
/// attachment store's record bookkeeping.
pub struct NativeApi {
    /// Whether native initialization has run and not been torn down.
    pub initialized: bool,
    /// How many times native initialization ran.
    pub init_calls: u64,
    /// How many times native teardown ran.
    pub terminate_calls: u64,
    /// Every window ever created, dead ones included; handle `k` sits at
    /// index `k - 1`.
    pub windows: Vec<NativeWindow>,
    /// How many times window creation was asked of the native layer.
    pub create_calls: u64,
    /// Stub control: when set, the native creation call yields a null
    /// handle.
    pub create_fails: bool,
    /// The primary output device's current video mode, or `None` when no
    /// output device is available.
    pub primary_monitor: Option<VideoMode>,
    /// The installed process-wide error callback, if any (an opaque
    /// identifier); overwritten, never accumulated.
    pub error_callback: Option<u64>,
    /// The window whose rendering context is current, if any; overwritten,
    /// never stacked.
    pub current_context: Option<u64>,
    /// The buffer-swap interval last handed to the native layer.
    pub swap_interval: i32,
    /// The pending context-version-major window hint.
    pub hint_context_major: i32,
    /// The pending context-version-minor window hint.
    pub hint_context_minor: i32,
    /// The pending client-API-profile window hint.
    pub hint_opengl_profile: i32,
    /// How many attachment bookkeeping records were ever allocated.
    pub records_allocated: u64,
    /// How many attachment bookkeeping records were released again.
    pub records_freed: u64,
    /// Events the native layer has queued for the pump.
    pub pending_events: Vec<Event>,
    /// The symbol table of the entry-point resolver.
    pub symbols: Vec<SymbolDef>,
}

impl NativeApi {
    /// Well-formedness: handles are the successor of their index, the
    /// release path ran exactly once for each dead window and never for a
    /// live one, and every allocated attachment record is either still in
    /// some window's slot or was released — the layer leaks nothing.
    pub open spec fn wf(self) -> bool {
        &&& forall|i: int|
            0 <= i < self.windows@.len() ==> (#[trigger] self.windows@[i]).handle == i + 1
        &&& forall|i: int|
            0 <= i < self.windows@.len() ==> ((#[trigger] self.windows@[i]).alive <==> self.windows@[i].destroy_calls == 0)
        &&& forall|i: int|
            0 <= i < self.windows@.len() ==> (#[trigger] self.windows@[i]).destroy_calls <= 1
        &&& self.records_allocated == self.records_freed + occupied_count(self.windows@)
    }

    /// Whether a raw handle names a window the native layer has created.
    pub open spec fn has_window(self, h: u64) -> bool {
        1 <= h <= self.windows@.len()
    }

    /// The state of the window a raw handle names.
    pub open spec fn win(self, h: u64) -> NativeWindow {
        self.windows@[h - 1]
    }

    /// Whether a raw handle names a window whose native resource still
    /// exists.
    pub open spec fn window_alive(self, h: u64) -> bool {
        self.has_window(h) && self.win(h).alive
    }

    /// A fresh native layer: not initialized, no windows, no records, no
    /// output device, nothing pending.
    pub fn new() -> (n: NativeApi)
        ensures
            n.wf(),
            !n.initialized,
            n.init_calls == 0,
            n.terminate_calls == 0,
            n.windows@ =~= Seq::<NativeWindow>::empty(),
            n.create_calls == 0,
            !n.create_fails,
            n.primary_monitor is None,
            n.error_callback is None,
            n.current_context is None,
            n.swap_interval == 0,
            n.hint_context_major == 0,
            n.hint_context_minor == 0,
            n.hint_opengl_profile == 0,
            n.records_allocated == 0,
            n.records_freed == 0,
            n.pending_events@ =~= Seq::<Event>::empty(),
            n.symbols@ =~= Seq::<SymbolDef>::empty(),
    {
        NativeApi {
            initialized: false,
            init_calls: 0,
            terminate_calls: 0,
            windows: Vec::new(),
            create_calls: 0,
            create_fails: false,
            primary_monitor: None,
            error_callback: None,
            current_context: None,
            swap_interval: 0,
            hint_context_major: 0,
            hint_context_minor: 0,
            hint_opengl_profile: 0,
            records_allocated: 0,
            records_freed: 0,
            pending_events: Vec::new(),
            symbols: Vec::new(),
        }
    }

    /// The per-window state a successful creation call installs.
    pub open spec fn spec_new_window(h: u64, width: i32, height: i32, fullscreen: bool) -> NativeWindow {
        NativeWindow {
            handle: h,
            width,
            height,
            fullscreen,
            alive: true,
            destroy_calls: 0,
            slot: None,
            close_requested: false,
            key_callback: None,
            mouse_callback: None,
            swap_requests: 0,
        }
    }

    /// Whether a creation call would currently succeed: the native layer
    /// must be initialized and not stubbed to fail.
    pub open spec fn spec_create_ok(self) -> bool {
        self.initialized && !self.create_fails
    }

    /// The native window-creation call.  Returns the new window's raw
    /// handle, or zero — the null handle — when the native layer is not
    /// initialized or is stubbed to fail; it never fails any other way.
    pub fn create_window(&mut self, width: i32, height: i32, fullscreen: bool) -> (h: u64)
        requires
            old(self).wf(),
            old(self).windows@.len() < usize::MAX,
            old(self).create_calls < u64::MAX,
        ensures
            final(self).wf(),
            final(self).create_calls == old(self).create_calls + 1,
            !old(self).spec_create_ok() ==> h == 0 && *final(self) == (NativeApi {
                create_calls: final(self).create_calls,
                ..*old(self)
            }),
            old(self).spec_create_ok() ==> {
                &&& h == old(self).windows@.len() + 1
                &&& h != 0
                &&& final(self).windows@ =~= old(self).windows@.push(
                    NativeApi::spec_new_window(h, width, height, fullscreen),
                )
                &&& *final(self) == (NativeApi {
                    windows: final(self).windows,
                    create_calls: final(self).create_calls,
                    ..*old(self)
                })
                &&& final(self).window_alive(h)
                &&& final(self).win(h) == NativeApi::spec_new_window(h, width, height, fullscreen)
            },
    {
        self.create_calls = self.create_calls + 1;
        if !self.initialized || self.create_fails {
            return 0u64;
        }
        let n: usize = self.windows.len();
        let h: u64 = (n as u64) + 1;
        let w = NativeWindow {
            handle: h,
            width,
            height,
            fullscreen,
            alive: true,
            destroy_calls: 0,
            slot: None,
            close_requested: false,
            key_callback: None,
            mouse_callback: None,
            swap_requests: 0,
        };
        self.windows.push(w);
        proof {
            lemma_occupied_push(old(self).windows@, w);
        }
        h
    }

    /// The entry-point resolution call: the address the resolver's table
    /// gives the name, or zero when the name is absent or no rendering
    /// context is current.
    pub fn get_proc_address(&self, name: &[u8]) -> (addr: u64)
        ensures
            addr == if self.current_context is Some {
                spec_lookup(self.symbols@, name@)
            } else {
                0u64
            },
    {
        if self.current_context.is_none() {
            return 0u64;
        }
        let ghost all = self.symbols@;
        let mut i: usize = 0;
        proof {
            assert(all.skip(0) =~= all);
        }
        while i < self.symbols.len()
            invariant
                i <= self.symbols@.len(),
                all == self.symbols@,
                self.current_context is Some,
                spec_lookup(all, name@) == spec_lookup(all.skip(i as int), name@),
            decreases self.symbols@.len() - i,
        {
            proof {
                assert(all.skip(i as int)[0] == all[i as int]);
            }
            if bytes_eq(self.symbols[i].name.as_slice(), name) {
                proof {
                    assert(all[i as int].name@ == name@);
                    assert(spec_lookup(all.skip(i as int), name@) == all[i as int].addr);
                }
                return self.symbols[i].addr;
            }
            proof {
                assert(all.skip(i as int).drop_first() =~= all.skip(i as int + 1));
            }
            i = i + 1;
        }
        proof {
            assert(all.skip(i as int).len() == 0);
        }
        0u64
    }

    /// What one native window-hint call does: the model tracks the hint
    /// targets this layer sets and ignores every other target.
    pub open spec fn spec_hint(self, target: i32, value: i32) -> NativeApi {
        if target == GLFW_CONTEXT_VERSION_MAJOR {
            NativeApi { hint_context_major: value, ..self }
        } else if target == GLFW_CONTEXT_VERSION_MINOR {
            NativeApi { hint_context_minor: value, ..self }
        } else if target == GLFW_OPENGL_PROFILE {
            NativeApi { hint_opengl_profile: value, ..self }
        } else {
            self
        }
    }

    /// The native window-hint call: set one pending hint for the next
    /// creation call; fire and forget.
    pub fn window_hint(&mut self, target: i32, value: i32)
        requires
            old(self).wf(),
        ensures
            final(self).wf(),
            *final(self) == old(self).spec_hint(target, value),
    {
        if target == GLFW_CONTEXT_VERSION_MAJOR {
            self.hint_context_major = value;
        } else if target == GLFW_CONTEXT_VERSION_MINOR {
            self.hint_context_minor = value;
        } else if target == GLFW_OPENGL_PROFILE {
            self.hint_opengl_profile = value;
        }
    }

    /// The index of the window a raw handle names.
    pub fn win_index(&self, h: u64) -> (i: usize)
        requires
            self.has_window(h),
        ensures
            i == h - 1,
            i < self.windows@.len(),
    {
        let n: usize = self.windows.len();
        assert(h - 1 < n);
        (h - 1) as usize
    }
}

} // verus!
