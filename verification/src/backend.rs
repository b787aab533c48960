//! The capability set a context provider exposes to the rendering core.
//!
//! The core sizes default framebuffers and viewports from the dimensions the
//! backend reports and consults the backend about the currency of its
//! context; a provider implements [`Backend`] to supply exactly that.
//! Resolving graphics entry points to function pointers is the one
//! capability left to the platform layer itself, since it hands out raw
//! pointers that are only valid under platform rules this crate does not
//! model.

use vstd::prelude::*;

use crate::context::BackendContext;
use crate::context::ContextError;
use crate::context::ContextState;
use crate::context::spec_dimensions;
use crate::context::spec_set_dimensions;

verus! {

/// What a context provider offers the rendering core: the currency of its
/// context and the recorded framebuffer dimensions, as the state machine of
/// [`crate::context`] defines them.
pub trait Backend: Sized {
    /// The currency state the backend is in.
    spec fn backend_state(&self) -> ContextState;

    /// Returns the last framebuffer dimensions recorded for the bound
    /// surface, or an invalid-state error while the context is not current.
    fn get_framebuffer_dimensions(&self) -> (r: Result<(u32, u32), ContextError>)
        ensures
            r == spec_dimensions(self.backend_state()),
    ;

    /// Records new framebuffer dimensions: applied while the context is
    /// current, discarded while it is not.
    fn set_framebuffer_dimensions(&mut self, new_dimensions: (u32, u32))
        ensures
            final(self).backend_state() == spec_set_dimensions(
                old(self).backend_state(),
                new_dimensions,
            ),
    ;

    /// True exactly when the backend's context is bound to the calling
    /// thread.
    fn is_current(&self) -> (r: bool)
        ensures
            r == (self.backend_state() is Current),
    ;
}

impl Backend for BackendContext {
    open spec fn backend_state(&self) -> ContextState {
        self@
    }

    fn get_framebuffer_dimensions(&self) -> (r: Result<(u32, u32), ContextError>) {
        BackendContext::get_framebuffer_dimensions(self)
    }

    fn set_framebuffer_dimensions(&mut self, new_dimensions: (u32, u32)) {
        BackendContext::set_framebuffer_dimensions(self, new_dimensions);
    }

    fn is_current(&self) -> (r: bool) {
        BackendContext::is_current(self)
    }
}

} // verus!
