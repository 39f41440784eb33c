//! A safety layer over a native windowing / graphics-context library.
//!
//! The native library itself — window creation, event delivery, buffer
//! swaps, symbol resolution — is an external collaborator reached through
//! a flat call boundary of raw pointers; that boundary cannot be verified
//! and is not what this crate is about.  What this crate verifies is the
//! layer that makes the boundary safe to use:
//!
//! * a process-wide context with enforced one-time initialization
//!   ([`Context`]),
//! * window handles that either own the native resource or merely borrow
//!   it, with the release obligation tied to ownership ([`Window`]),
//! * a single typed attachment slot per window, retrieved only under a
//!   matching type tag,
//! * the bridge that turns a raw handle delivered by the event pump back
//!   into a safe, borrowing wrapper ([`bridge`]),
//! * the translator from native error codes to a closed enumeration
//!   ([`Error`]).
//!
//! The native boundary is modelled explicitly as a state value,
//! [`NativeApi`]: every operation of the layer takes the model and its
//! contract says exactly what the operation asks of the native layer and
//! what it changes.  The unverified glue that performs the real native
//! calls lives outside the verified crate and mirrors these contracts.

pub mod bridge;
pub mod context;
pub mod error;
pub mod native;
pub mod window;

pub use bridge::Dispatch;
pub use context::Context;
pub use context::System;
pub use error::Error;
pub use error::parse_params;
pub use native::Event;
pub use native::NativeApi;
pub use native::NativeWindow;
pub use native::SymbolDef;
pub use native::UserData;
pub use native::VideoMode;
pub use window::Window;
