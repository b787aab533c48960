//! Context-currency tracking for a GPU rendering backend.
//!
//! A rendering context is a capability token: at any moment it is either
//! bound to the calling thread (*current*) together with a drawable surface
//! of known pixel dimensions, or it is *not current* and no commands may be
//! issued through it.  Binding and unbinding are fallible platform
//! operations, so this crate keeps the bookkeeping — which state the context
//! is in, and which framebuffer dimensions were last recorded for the bound
//! surface — as a verified state machine, while the platform layer merely
//! reports whether each binding operation was accepted.

pub mod backend;
pub mod context;
pub mod display;
pub mod laws;
pub mod slot;
