//! The context-currency state machine.
//!
//! A [`BackendContext`] is in exactly one of two states: [`ContextState::NotCurrent`],
//! where no commands may be issued through it, or [`ContextState::Current`], where it
//! is bound to the calling thread and carries the pixel dimensions of the drawable
//! surface it renders into.  Transitions between the two are driven by the platform
//! layer, which either accepts or rejects each binding operation; the outcome is
//! handed in as a [`BindingVerdict`].

use vstd::prelude::*;

verus! {

/// A drawable surface, modelled by the values this layer reads from it:
/// its pixel dimensions.
#[derive(Clone, Copy, Debug, PartialEq, Eq, Structural)]
pub struct Surface {
    /// Width of the surface in pixels.
    pub width: u32,
    /// Height of the surface in pixels.
    pub height: u32,
}

/// The platform layer's answer to a single binding operation.
#[derive(Clone, Copy, Debug, PartialEq, Eq, Structural)]
pub enum BindingVerdict {
    /// The platform performed the binding operation.
    Accepted,
    /// The platform rejected the binding operation (incompatible surface,
    /// context lost, or the context is current on another thread).
    Rejected,
}

/// Errors surfaced by context operations.
#[derive(Clone, Copy, Debug, PartialEq, Eq, Structural)]
pub enum ContextError {
    /// The platform rejected a `make_current` or `make_not_current` request.
    PlatformBindingFailure,
    /// Data that only exists while the context is current was asked for
    /// while it was not.
    InvalidStateAccess,
}

/// The currency state of a rendering context.
#[derive(Clone, Copy, Debug, PartialEq, Eq, Structural)]
pub enum ContextState {
    /// The context exists but is not bound to any thread.
    NotCurrent,
    /// The context is bound to the calling thread and associated with a
    /// drawable surface whose dimensions were last recorded as given.
    Current {
        /// Last recorded width of the bound surface, in pixels.
        width: u32,
        /// Last recorded height of the bound surface, in pixels.
        height: u32,
    },
}

/// Placeholder width recorded when a context is adopted already current,
/// before the owning application has reported the real surface size.
pub const INITIAL_FRAMEBUFFER_WIDTH: u32 = 800;

/// Placeholder height recorded when a context is adopted already current,
/// before the owning application has reported the real surface size.
pub const INITIAL_FRAMEBUFFER_HEIGHT: u32 = 600;

/// What recording new framebuffer dimensions does to the state: the update
/// is applied while current and discarded while not current.
pub open spec fn spec_set_dimensions(s: ContextState, new_dimensions: (u32, u32)) -> ContextState {
    match s {
        ContextState::NotCurrent => ContextState::NotCurrent,
        ContextState::Current { .. } => (ContextState::Current {
            width: new_dimensions.0,
            height: new_dimensions.1,
        }),
    }
}

/// What reading the framebuffer dimensions returns: the recorded dimensions
/// while current, and an invalid-state error while not current.
pub open spec fn spec_dimensions(s: ContextState) -> Result<(u32, u32), ContextError> {
    match s {
        ContextState::NotCurrent => Err(ContextError::InvalidStateAccess),
        ContextState::Current { width, height } => Ok((width, height)),
    }
}

/// The `make_current` transition: the new state paired with the reported result.
///
/// From `NotCurrent` a single platform acquire decides the outcome and
/// `release` is not consulted.  From `Current` the context is rebound by
/// releasing the old binding first: a rejected release leaves the old binding
/// (and its recorded dimensions) untouched, while a release that succeeds but
/// is followed by a rejected acquire leaves the context not current — the
/// binding really was given up, and no surface is retained on its behalf.
pub open spec fn spec_make_current(
    s: ContextState,
    surface: Surface,
    release: BindingVerdict,
    acquire: BindingVerdict,
) -> (ContextState, Result<(), ContextError>) {
    match s {
        ContextState::NotCurrent => match acquire {
            BindingVerdict::Accepted => (
                (ContextState::Current { width: surface.width, height: surface.height }),
                Ok(()),
            ),
            BindingVerdict::Rejected => (
                ContextState::NotCurrent,
                Err(ContextError::PlatformBindingFailure),
            ),
        },
        ContextState::Current { .. } => match release {
            BindingVerdict::Rejected => (s, Err(ContextError::PlatformBindingFailure)),
            BindingVerdict::Accepted => match acquire {
                BindingVerdict::Accepted => (
                    (ContextState::Current { width: surface.width, height: surface.height }),
                    Ok(()),
                ),
                BindingVerdict::Rejected => (
                    ContextState::NotCurrent,
                    Err(ContextError::PlatformBindingFailure),
                ),
            },
        },
    }
}

/// The `make_not_current` transition: the new state paired with the reported
/// result.  Releasing a context that is not current performs no platform call
/// and reports an invalid-state error.
pub open spec fn spec_make_not_current(
    s: ContextState,
    verdict: BindingVerdict,
) -> (ContextState, Result<(), ContextError>) {
    match s {
        ContextState::NotCurrent => (s, Err(ContextError::InvalidStateAccess)),
        ContextState::Current { .. } => match verdict {
            BindingVerdict::Accepted => (ContextState::NotCurrent, Ok(())),
            BindingVerdict::Rejected => (s, Err(ContextError::PlatformBindingFailure)),
        },
    }
}

/// A rendering context together with the framebuffer dimensions recorded for
/// its bound surface.  The context owns this bookkeeping outright; the
/// windowing layer does not push resize notifications into it, so the owning
/// application must call [`BackendContext::set_framebuffer_dimensions`]
/// whenever the underlying surface is resized.
#[derive(Debug)]
pub struct BackendContext {
    state: ContextState,
}

impl View for BackendContext {
    type V = ContextState;

    closed spec fn view(&self) -> ContextState {
        self.state
    }
}

impl BackendContext {
    /// Creates a context that is not bound to any thread.
    pub fn new() -> (r: Self)
        ensures
            r@ == ContextState::NotCurrent,
    {
        BackendContext { state: ContextState::NotCurrent }
    }

    /// Adopts a context that the platform already made current.  The real
    /// surface size is not known at adoption time, so the placeholder
    /// dimensions are recorded until the application reports the real ones.
    pub fn from_current() -> (r: Self)
        ensures
            r@ == (ContextState::Current {
                width: INITIAL_FRAMEBUFFER_WIDTH,
                height: INITIAL_FRAMEBUFFER_HEIGHT,
            }),
    {
        BackendContext {
            state: ContextState::Current {
                width: INITIAL_FRAMEBUFFER_WIDTH,
                height: INITIAL_FRAMEBUFFER_HEIGHT,
            },
        }
    }

    /// True exactly when the context is bound to the calling thread.
    pub fn is_current(&self) -> (r: bool)
        ensures
            r == (self@ is Current),
    {
        match self.state {
            ContextState::Current { .. } => true,
            ContextState::NotCurrent => false,
        }
    }

    /// Returns the last dimensions recorded for the bound surface, or an
    /// invalid-state error while the context is not current.
    pub fn get_framebuffer_dimensions(&self) -> (r: Result<(u32, u32), ContextError>)
        ensures
            r == spec_dimensions(self@),
    {
        match self.state {
            ContextState::Current { width, height } => Ok((width, height)),
            ContextState::NotCurrent => Err(ContextError::InvalidStateAccess),
        }
    }

    /// Records new framebuffer dimensions.  The update is applied while the
    /// context is current and silently discarded while it is not: dimension
    /// updates outside the current state are dropped, not queued.
    pub fn set_framebuffer_dimensions(&mut self, new_dimensions: (u32, u32))
        ensures
            final(self)@ == spec_set_dimensions(old(self)@, new_dimensions),
    {
        match self.state {
            ContextState::Current { .. } => {
                self.state = ContextState::Current {
                    width: new_dimensions.0,
                    height: new_dimensions.1,
                };
            },
            ContextState::NotCurrent => {},
        }
    }

    /// Binds the context to the calling thread and associates it with
    /// `surface`, consuming the currency token and reissuing it.
    ///
    /// The platform performs up to two fallible steps — releasing an existing
    /// binding, then acquiring the new one — and their verdicts are handed in
    /// by the caller.  From `NotCurrent` no release is performed and `release`
    /// is not consulted.  The outcome is exactly [`spec_make_current`]: on
    /// success the context is current with the dimensions of `surface`; a
    /// rejected release leaves the context bound as before; a release that
    /// succeeds followed by a rejected acquire leaves it not current.
    pub fn make_current(
        self,
        surface: Surface,
        release: BindingVerdict,
        acquire: BindingVerdict,
    ) -> (r: (Self, Result<(), ContextError>))
        ensures
            (r.0@, r.1) == spec_make_current(self@, surface, release, acquire),
            r.1 is Ok ==> r.0@ == (ContextState::Current {
                width: surface.width,
                height: surface.height,
            }),
    {
        match self.state {
            ContextState::NotCurrent => match acquire {
                BindingVerdict::Accepted => (
                    BackendContext {
                        state: ContextState::Current {
                            width: surface.width,
                            height: surface.height,
                        },
                    },
                    Ok(()),
                ),
                BindingVerdict::Rejected => (self, Err(ContextError::PlatformBindingFailure)),
            },
            ContextState::Current { .. } => match release {
                BindingVerdict::Rejected => (self, Err(ContextError::PlatformBindingFailure)),
                BindingVerdict::Accepted => match acquire {
                    BindingVerdict::Accepted => (
                        BackendContext {
                            state: ContextState::Current {
                                width: surface.width,
                                height: surface.height,
                            },
                        },
                        Ok(()),
                    ),
                    BindingVerdict::Rejected => (
                        BackendContext { state: ContextState::NotCurrent },
                        Err(ContextError::PlatformBindingFailure),
                    ),
                },
            },
        }
    }

    /// Releases the binding of a current context, consuming the currency
    /// token and reissuing it.  The platform's verdict on the release is
    /// handed in by the caller; asking to release a context that is not
    /// current performs no platform call and reports an invalid-state error.
    pub fn make_not_current(self, verdict: BindingVerdict) -> (r: (
        Self,
        Result<(), ContextError>,
    ))
        ensures
            (r.0@, r.1) == spec_make_not_current(self@, verdict),
            r.1 is Ok ==> r.0@ == ContextState::NotCurrent,
    {
        match self.state {
            ContextState::NotCurrent => (self, Err(ContextError::InvalidStateAccess)),
            ContextState::Current { .. } => match verdict {
                BindingVerdict::Accepted => (
                    BackendContext { state: ContextState::NotCurrent },
                    Ok(()),
                ),
                BindingVerdict::Rejected => (self, Err(ContextError::PlatformBindingFailure)),
            },
        }
    }
}

} // verus!
