//! The handle ownership model and the typed attachment store.
//!
//! A [`Window`] wraps a non-null raw handle together with its release
//! obligation.  A handle obtained from a creation call owns the native
//! resource and must release it — and any attachment record — exactly once;
//! a handle reconstructed from a raw pointer inside a callback merely
//! borrows the resource and must never release anything.  Both kinds of
//! handle see the same native user-data slot of the resource they name.

use vstd::prelude::*;
use vstd::string::StringSliceAdditionalSpecFns;

use crate::native::NativeApi;
use crate::native::NativeWindow;
use crate::native::UserData;
use crate::native::lemma_occupied_bound;
use crate::native::lemma_occupied_update;
use crate::native::slot_records;
use crate::native::spec_lookup;

verus! {

/// Whether a window or symbol name cannot be handed to the native layer
/// because it holds an interior NUL byte.
pub open spec fn spec_name_has_nul(name: &str) -> bool {
    name.spec_bytes().contains(0u8)
}

/// Whether a string holds an interior NUL byte, which the native layer's
/// C-string boundary cannot carry.
pub fn str_has_nul(s: &str) -> (r: bool)
    ensures
        r == spec_name_has_nul(s),
{
    let b: &[u8] = s.as_bytes();
    let mut i: usize = 0;
    while i < b.len()
        invariant
            i <= b@.len(),
            b@ == s.spec_bytes(),
            forall|j: int| 0 <= j < i ==> b@[j] != 0u8,
        decreases b@.len() - i,
    {
        if b[i] == 0 {
            return true;
        }
        i = i + 1;
    }
    proof {
        assert(forall|j: int| 0 <= j < b@.len() ==> b@[j] != 0u8);
        assert(!b@.contains(0u8));
    }
    false
}

/// A window handle: a non-null raw native handle plus its release
/// obligation.
pub struct Window {
    raw: u64,
    should_drop: bool,
}

/// The per-window state after the native release path ran: the resource is
/// gone, the release ran once more, and the attachment slot was emptied
/// beforehand.
pub open spec fn spec_destroyed(w: NativeWindow) -> NativeWindow {
    NativeWindow { alive: false, destroy_calls: (w.destroy_calls + 1) as u64, slot: None, ..w }
}

/// The per-window state after an attachment was stored: the single slot
/// holds the new record, whatever it held before.
pub open spec fn spec_with_attachment(w: NativeWindow, dtype: u64, ptr: u64) -> NativeWindow {
    NativeWindow { slot: Some(UserData { dtype, ptr }), ..w }
}

/// What retrieval under a type tag yields: the stored word only when the
/// stored tag matches exactly; an empty slot or a mismatched tag yields
/// nothing.
pub open spec fn spec_attachment(w: NativeWindow, dtype: u64) -> Option<u64> {
    match w.slot {
        Some(u) => if u.dtype == dtype {
            Some(u.ptr)
        } else {
            None
        },
        None => None,
    }
}

/// The full outcome of a creation attempt: `old_n` the native layer before,
/// `new_n` after, `r` what the caller got.  A name with an interior NUL is
/// rejected before the native layer is asked; a null native handle yields
/// no window; otherwise the caller owns a fresh, live window of the
/// requested size.
pub open spec fn spec_created(
    old_n: NativeApi,
    new_n: NativeApi,
    r: Option<Window>,
    name: &str,
    width: i32,
    height: i32,
    fullscreen: bool,
) -> bool {
    if spec_name_has_nul(name) {
        r is None && new_n == old_n
    } else {
        &&& new_n.create_calls == old_n.create_calls + 1
        &&& !old_n.spec_create_ok() ==> r is None && new_n == (NativeApi {
            create_calls: new_n.create_calls,
            ..old_n
        })
        &&& old_n.spec_create_ok() ==> {
            let h = (old_n.windows@.len() + 1) as u64;
            &&& r matches Some(w) && w.wf() && w.owns_resource() && w.spec_raw() == h
            &&& new_n.windows@ == old_n.windows@.push(
                NativeApi::spec_new_window(h, width, height, fullscreen),
            )
            &&& new_n == (NativeApi {
                windows: new_n.windows,
                create_calls: new_n.create_calls,
                ..old_n
            })
        }
    }
}

impl Window {
    /// The raw native handle this wrapper names.
    pub closed spec fn spec_raw(self) -> u64 {
        self.raw
    }

    /// Whether this wrapper owns the native resource and must release it on
    /// destruction.
    pub closed spec fn owns_resource(self) -> bool {
        self.should_drop
    }

    /// A handle never wraps the null handle.
    pub open spec fn wf(self) -> bool {
        self.spec_raw() != 0
    }

    /// Ask the native layer for a window.  `None` when the name cannot
    /// cross the C-string boundary or the native call yields a null handle;
    /// otherwise the returned handle owns the new resource.
    fn new_ex(native: &mut NativeApi, name: &str, size: (i32, i32), fullscreen: bool) -> (r: Option<
        Window,
    >)
        requires
            old(native).wf(),
            old(native).windows@.len() < usize::MAX,
            old(native).create_calls < u64::MAX,
        ensures
            final(native).wf(),
            spec_created(*old(native), *final(native), r, name, size.0, size.1, fullscreen),
    {
        if str_has_nul(name) {
            return None;
        }
        let h = native.create_window(size.0, size.1, fullscreen);
        if h == 0 {
            return None;
        }
        Some(Window { raw: h, should_drop: true })
    }

    /// Create a window of the given size.  `None` when the native call
    /// fails; never a crash.
    pub(crate) fn new(native: &mut NativeApi, name: &str, size: (i32, i32)) -> (r: Option<Window>)
        requires
            old(native).wf(),
            old(native).windows@.len() < usize::MAX,
            old(native).create_calls < u64::MAX,
        ensures
            final(native).wf(),
            spec_created(*old(native), *final(native), r, name, size.0, size.1, false),
    {
        Self::new_ex(native, name, size, false)
    }

    /// Create a fullscreen window sized to the primary output device's
    /// current video mode.  When no output device is available the attempt
    /// fails outright — the native layer is not even asked — rather than
    /// read an invalid mode.
    pub(crate) fn new_fullscreen(native: &mut NativeApi, name: &str) -> (r: Option<Window>)
        requires
            old(native).wf(),
            old(native).windows@.len() < usize::MAX,
            old(native).create_calls < u64::MAX,
        ensures
            final(native).wf(),
            old(native).primary_monitor is None ==> r is None && *final(native) == *old(native),
            old(native).primary_monitor matches Some(mode) ==> spec_created(
                *old(native),
                *final(native),
                r,
                name,
                mode.width,
                mode.height,
                true,
            ),
    {
        let pm = native.primary_monitor;
        match pm {
            None => None,
            Some(mode) => Self::new_ex(native, name, (mode.width, mode.height), true),
        }
    }

    /// Reconstruct a handle from a raw native handle delivered to a
    /// callback.  The result merely borrows the resource: destroying it
    /// releases nothing.  The caller is responsible for the handle naming a
    /// window that is still alive while the wrapper is used.
    pub fn from_raw(raw: u64) -> (w: Window)
        requires
            raw != 0,
        ensures
            w.wf(),
            w.spec_raw() == raw,
            !w.owns_resource(),
    {
        Window { raw, should_drop: false }
    }

    /// Destroy this wrapper.  An owning handle first releases any
    /// attachment record, then runs the native release path, exactly once;
    /// a borrowed handle changes nothing at all.
    pub fn destroy(self, native: &mut NativeApi)
        requires
            old(native).wf(),
            self.owns_resource() ==> old(native).window_alive(self.spec_raw()),
        ensures
            final(native).wf(),
            !self.owns_resource() ==> *final(native) == *old(native),
            self.owns_resource() ==> {
                let i = self.spec_raw() - 1;
                let w = old(native).windows@[i];
                &&& final(native).windows@ == old(native).windows@.update(i, spec_destroyed(w))
                &&& final(native).records_freed == old(native).records_freed + slot_records(w)
                &&& *final(native) == (NativeApi {
                    windows: final(native).windows,
                    records_freed: final(native).records_freed,
                    ..*old(native)
                })
            },
    {
        if self.should_drop {
            let i = native.win_index(self.raw);
            let mut w = native.windows[i];
            proof {
                lemma_occupied_bound(native.windows@, i as int);
            }
            if w.slot.is_some() {
                native.records_freed = native.records_freed + 1;
                w.slot = None;
            }
            w.alive = false;
            w.destroy_calls = w.destroy_calls + 1;
            native.windows.set(i, w);
            proof {
                lemma_occupied_update(old(native).windows@, i as int, w);
            }
        }
    }

    /// Bind this window's rendering context as the calling thread's current
    /// one; the previous binding is overwritten, not stacked.
    pub fn make_global(&self, native: &mut NativeApi)
        requires
            old(native).wf(),
            old(native).window_alive(self.spec_raw()),
        ensures
            final(native).wf(),
            *final(native) == (NativeApi {
                current_context: Some(self.spec_raw()),
                ..*old(native)
            }),
    {
        native.current_context = Some(self.raw);
    }

    /// Resolve one graphics-API entry point by its raw name bytes, through
    /// the current rendering context's resolver.  Zero when the name is
    /// unresolvable or no context is current; never a crash.
    pub fn get_load_proc(&self, native: &NativeApi, name: &[u8]) -> (addr: u64)
        ensures
            addr == if native.current_context is Some {
                spec_lookup(native.symbols@, name@)
            } else {
                0u64
            },
    {
        native.get_proc_address(name)
    }

    /// Resolve one graphics-API entry point by name.  A name that cannot
    /// cross the C-string boundary yields zero, as does an unresolvable
    /// name or a missing current context; never a crash.
    pub fn get_safe_load_proc(&self, native: &NativeApi, name: &str) -> (addr: u64)
        ensures
            addr == if spec_name_has_nul(name) {
                0u64
            } else if native.current_context is Some {
                spec_lookup(native.symbols@, name.spec_bytes())
            } else {
                0u64
            },
    {
        if str_has_nul(name) {
            return 0u64;
        }
        native.get_proc_address(name.as_bytes())
    }

    /// Request a buffer swap for this window.
    pub fn update(&self, native: &mut NativeApi)
        requires
            old(native).wf(),
            old(native).window_alive(self.spec_raw()),
            old(native).win(self.spec_raw()).swap_requests < u64::MAX,
        ensures
            final(native).wf(),
            ({
                let i = self.spec_raw() - 1;
                let w = old(native).windows@[i];
                &&& final(native).windows@ == old(native).windows@.update(
                    i,
                    NativeWindow { swap_requests: (w.swap_requests + 1) as u64, ..w },
                )
                &&& *final(native) == (NativeApi { windows: final(native).windows, ..*old(native) })
            }),
    {
        let i = native.win_index(self.raw);
        let mut w = native.windows[i];
        w.swap_requests = w.swap_requests + 1;
        native.windows.set(i, w);
        proof {
            lemma_occupied_update(old(native).windows@, i as int, w);
        }
    }

    /// Whether the native layer has flagged this window to close.
    pub fn should_close(&self, native: &NativeApi) -> (r: bool)
        requires
            native.wf(),
            native.window_alive(self.spec_raw()),
        ensures
            r == native.win(self.spec_raw()).close_requested,
    {
        let i = native.win_index(self.raw);
        native.windows[i].close_requested
    }

    /// Register the key callback for this window, overwriting any previous
    /// registration.
    pub fn set_key_callback(&self, native: &mut NativeApi, callback: u64)
        requires
            old(native).wf(),
            old(native).window_alive(self.spec_raw()),
        ensures
            final(native).wf(),
            ({
                let i = self.spec_raw() - 1;
                let w = old(native).windows@[i];
                &&& final(native).windows@ == old(native).windows@.update(
                    i,
                    NativeWindow { key_callback: Some(callback), ..w },
                )
                &&& *final(native) == (NativeApi { windows: final(native).windows, ..*old(native) })
            }),
    {
        let i = native.win_index(self.raw);
        let mut w = native.windows[i];
        w.key_callback = Some(callback);
        native.windows.set(i, w);
        proof {
            lemma_occupied_update(old(native).windows@, i as int, w);
        }
    }

    /// Register the cursor callback for this window, overwriting any
    /// previous registration.
    pub fn set_mouse_callback(&self, native: &mut NativeApi, callback: u64)
        requires
            old(native).wf(),
            old(native).window_alive(self.spec_raw()),
        ensures
            final(native).wf(),
            ({
                let i = self.spec_raw() - 1;
                let w = old(native).windows@[i];
                &&& final(native).windows@ == old(native).windows@.update(
                    i,
                    NativeWindow { mouse_callback: Some(callback), ..w },
                )
                &&& *final(native) == (NativeApi { windows: final(native).windows, ..*old(native) })
            }),
    {
        let i = native.win_index(self.raw);
        let mut w = native.windows[i];
        w.mouse_callback = Some(callback);
        native.windows.set(i, w);
        proof {
            lemma_occupied_update(old(native).windows@, i as int, w);
        }
    }

    /// Attach a type-tagged value to this window's single user-data slot,
    /// first releasing whatever record the slot held — of any type — so
    /// that replacement never leaks.
    pub fn set_user_data(&self, native: &mut NativeApi, dtype: u64, value: u64)
        requires
            old(native).wf(),
            old(native).window_alive(self.spec_raw()),
            old(native).records_allocated < u64::MAX,
        ensures
            final(native).wf(),
            ({
                let i = self.spec_raw() - 1;
                let w = old(native).windows@[i];
                &&& final(native).windows@ == old(native).windows@.update(
                    i,
                    spec_with_attachment(w, dtype, value),
                )
                &&& final(native).records_allocated == old(native).records_allocated + 1
                &&& final(native).records_freed == old(native).records_freed + slot_records(w)
                &&& *final(native) == (NativeApi {
                    windows: final(native).windows,
                    records_allocated: final(native).records_allocated,
                    records_freed: final(native).records_freed,
                    ..*old(native)
                })
            }),
    {
        let i = native.win_index(self.raw);
        let mut w = native.windows[i];
        proof {
            lemma_occupied_bound(native.windows@, i as int);
        }
        if w.slot.is_some() {
            native.records_freed = native.records_freed + 1;
        }
        w.slot = Some(UserData { dtype, ptr: value });
        native.records_allocated = native.records_allocated + 1;
        native.windows.set(i, w);
        proof {
            lemma_occupied_update(old(native).windows@, i as int, w);
        }
    }

    /// Retrieve the attached value under a type tag.  The stored word comes
    /// back only when the stored tag matches exactly; an empty slot or a
    /// mismatched tag yields `None` — silently, by design.
    pub fn get_user_data(&self, native: &NativeApi, dtype: u64) -> (r: Option<u64>)
        requires
            native.wf(),
            native.window_alive(self.spec_raw()),
        ensures
            r == spec_attachment(native.win(self.spec_raw()), dtype),
    {
        let i = native.win_index(self.raw);
        match native.windows[i].slot {
            Some(u) => if u.dtype == dtype {
                Some(u.ptr)
            } else {
                None
            },
            None => None,
        }
    }

    /// Read the raw user-data slot itself: the bookkeeping record, if one
    /// is attached.
    pub fn get_user_data_ptr(&self, native: &NativeApi) -> (r: Option<UserData>)
        requires
            native.wf(),
            native.window_alive(self.spec_raw()),
        ensures
            r == native.win(self.spec_raw()).slot,
    {
        let i = native.win_index(self.raw);
        native.windows[i].slot
    }

    /// The raw native handle this wrapper names.
    pub fn raw(&self) -> (r: u64)
        ensures
            r == self.spec_raw(),
    {
        self.raw
    }

    /// Whether this wrapper owns the native resource.
    pub fn owns(&self) -> (r: bool)
        ensures
            r == self.owns_resource(),
    {
        self.should_drop
    }
}

/// Attachment type-safety: after a value is stored under one tag,
/// retrieval yields that value under exactly that tag, and nothing under
/// any other tag.
pub proof fn lemma_attachment_type_safety(w: NativeWindow, set_tag: u64, value: u64, get_tag: u64)
    ensures
        spec_attachment(spec_with_attachment(w, set_tag, value), get_tag) == if get_tag == set_tag {
            Some(value)
        } else {
            None::<u64>
        },
{
}

/// Replacing an attachment releases the prior record: storing a second
/// attachment frees exactly one record — the one the first store
/// installed — and afterwards the records still live are exactly the
/// occupied slots, so nothing has leaked.
pub proof fn lemma_replacement_releases_prior(
    ws: Seq<NativeWindow>,
    i: int,
    alloc: nat,
    freed: nat,
    a_tag: u64,
    a_val: u64,
    b_tag: u64,
    b_val: u64,
)
    requires
        0 <= i < ws.len(),
        alloc == freed + crate::native::occupied_count(ws),
    ensures
        ({
            let ws1 = ws.update(i, spec_with_attachment(ws[i], a_tag, a_val));
            let ws2 = ws1.update(i, spec_with_attachment(ws1[i], b_tag, b_val));
            let alloc1 = alloc + 1;
            let freed1 = freed + slot_records(ws[i]);
            let alloc2 = alloc1 + 1;
            let freed2 = freed1 + slot_records(ws1[i]);
            &&& freed2 == freed1 + 1
            &&& alloc2 == freed2 + crate::native::occupied_count(ws2)
        }),
{
    let ws1 = ws.update(i, spec_with_attachment(ws[i], a_tag, a_val));
    let ws2 = ws1.update(i, spec_with_attachment(ws1[i], b_tag, b_val));
    lemma_occupied_update(ws, i, spec_with_attachment(ws[i], a_tag, a_val));
    lemma_occupied_update(ws1, i, spec_with_attachment(ws1[i], b_tag, b_val));
}

} // verus!
