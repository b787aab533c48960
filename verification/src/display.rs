//! A display: the storage place of a rendering context, plus the frame-level
//! bookkeeping the rendering core asks of it.
//!
//! The display keeps its context in a [`Slot`] so that lifecycle handlers can
//! extract the currency token by value (suspend), transition it, and reinsert
//! it (resume).  Construction models the core's compatibility check: the
//! check itself belongs to the rendering core, so its verdict is handed in,
//! and a rejected verdict is fatal for the context instance.

use vstd::prelude::*;

use crate::context::BackendContext;
use crate::context::ContextError;
use crate::context::ContextState;
use crate::context::spec_dimensions;
use crate::context::spec_set_dimensions;
use crate::slot::Slot;

verus! {

/// Errors that can end the creation of a display.
#[derive(Clone, Copy, Debug, PartialEq, Eq, Structural)]
pub enum DisplayCreationError {
    /// An error happened in the backend while the display was being set up.
    Backend(ContextError),
    /// The compatibility check rejected the implementation's capabilities;
    /// fatal for this context instance.
    IncompatibleImplementation,
}

impl DisplayCreationError {
    /// A short description of the error, in words.
    pub fn message(&self) -> (r: &'static str)
        ensures
            *self is Backend ==> r@ == "backend error during display creation"@,
            *self is IncompatibleImplementation ==> r@
                == "the implementation's capabilities were rejected as incompatible"@,
    {
        match self {
            DisplayCreationError::Backend(_) => "backend error during display creation",
            DisplayCreationError::IncompatibleImplementation => {
                "the implementation's capabilities were rejected as incompatible"
            },
        }
    }

    /// The backend error this creation error arose from, if there is one.
    pub fn cause(&self) -> (r: Option<ContextError>)
        ensures
            r == (match *self {
                DisplayCreationError::Backend(e) => Some(e),
                DisplayCreationError::IncompatibleImplementation => None::<ContextError>,
            }),
    {
        match self {
            DisplayCreationError::Backend(e) => Some(*e),
            DisplayCreationError::IncompatibleImplementation => None,
        }
    }
}

impl From<ContextError> for DisplayCreationError {
    /// Wraps a backend error of display setup.
    fn from(e: ContextError) -> (r: Self) {
        DisplayCreationError::Backend(e)
    }
}

impl vstd::std_specs::convert::FromSpecImpl<ContextError> for DisplayCreationError {
    open spec fn obeys_from_spec() -> bool {
        true
    }

    open spec fn from_spec(e: ContextError) -> Self {
        DisplayCreationError::Backend(e)
    }
}

/// Read access to the rendering context a value carries.
pub trait Facade {
    /// Whether the context is in its cell and can be handed out.
    spec fn context_available(&self) -> bool;

    /// The currency state of the carried context.
    spec fn facade_context(&self) -> ContextState;

    /// Borrows the carried context.  Asking for it while it is extracted
    /// from its cell is a programming error and is ruled out by the
    /// precondition.
    fn get_context(&self) -> (r: &BackendContext)
        requires
            self.context_available(),
        ensures
            r@ == self.facade_context(),
    ;
}

/// A rendering context combined with the bookkeeping for drawing on it.
///
/// The display records, apart from the context itself, the framebuffer
/// dimensions it saw at the last frame, so that a change of size between
/// frames can be acted upon before drawing continues.
#[derive(Debug)]
pub struct Display {
    context: Slot<BackendContext>,
    last_framebuffer_dimensions: (u32, u32),
}

impl Display {
    /// The context in its cell, by currency state — or `None` while the
    /// currency token is extracted.
    pub closed spec fn spec_context(&self) -> Option<ContextState> {
        match self.context {
            Slot::Present(c) => Some(c@),
            Slot::Extracted => None,
        }
    }

    /// The framebuffer dimensions recorded at the last frame.
    pub closed spec fn spec_last_dimensions(&self) -> (u32, u32) {
        self.last_framebuffer_dimensions
    }

    /// Creates a display around `context`, subject to the rendering core's
    /// compatibility check, whose verdict is handed in as `supported`: a
    /// rejected implementation is fatal for the context instance.  A fresh
    /// display has seen no frame yet, so its last-frame dimensions start at
    /// zero and the first frame always registers as a size change.
    pub fn new(context: BackendContext, supported: bool) -> (r: Result<
        Display,
        DisplayCreationError,
    >)
        ensures
            supported ==> (r matches Ok(d) && d.spec_context() == Some(context@)
                && d.spec_last_dimensions() == (0u32, 0u32)),
            !supported ==> r == Err::<Display, _>(
                DisplayCreationError::IncompatibleImplementation,
            ),
    {
        if supported {
            Ok(Display { context: Slot::new(context), last_framebuffer_dimensions: (0, 0) })
        } else {
            Err(DisplayCreationError::IncompatibleImplementation)
        }
    }

    /// Creates a display around `context` without consulting the
    /// compatibility check, for callers that answer for the implementation
    /// themselves.
    pub fn unchecked(context: BackendContext) -> (r: Display)
        ensures
            r.spec_context() == Some(context@),
            r.spec_last_dimensions() == (0u32, 0u32),
    {
        Display { context: Slot::new(context), last_framebuffer_dimensions: (0, 0) }
    }

    /// Extracts the currency token from the display, leaving the cell in
    /// the extracted state, so that a lifecycle handler can transition the
    /// context by value.  Extracting while the token is already out is
    /// reported as an invalid-state access.
    pub fn take_context(&mut self) -> (r: Result<BackendContext, ContextError>)
        ensures
            final(self).spec_last_dimensions() == old(self).spec_last_dimensions(),
            final(self).spec_context() is None,
            match r {
                Ok(c) => old(self).spec_context() == Some(c@),
                Err(e) => old(self).spec_context() is None
                    && e == ContextError::InvalidStateAccess,
            },
    {
        match self.context.try_take() {
            Some(context) => Ok(context),
            None => Err(ContextError::InvalidStateAccess),
        }
    }

    /// Reinserts a currency token into the display, returning the context
    /// it displaced if the cell was not empty.
    pub fn insert_context(&mut self, context: BackendContext) -> (r: Option<BackendContext>)
        ensures
            final(self).spec_last_dimensions() == old(self).spec_last_dimensions(),
            final(self).spec_context() == Some(context@),
            match r {
                Some(displaced) => old(self).spec_context() == Some(displaced@),
                None => old(self).spec_context() is None,
            },
    {
        self.context.insert(context)
    }

    /// Records new framebuffer dimensions on the carried context: applied
    /// while the context is current, discarded while it is not.  Recording
    /// while the currency token is extracted from its cell is a programming
    /// error and is reported as an invalid-state access.
    pub fn set_framebuffer_dimensions(&mut self, new_dimensions: (u32, u32)) -> (r: Result<
        (),
        ContextError,
    >)
        ensures
            final(self).spec_last_dimensions() == old(self).spec_last_dimensions(),
            match old(self).spec_context() {
                Some(s) => r is Ok && final(self).spec_context() == Some(
                    spec_set_dimensions(s, new_dimensions),
                ),
                None => r == Err::<(), _>(ContextError::InvalidStateAccess)
                    && final(self).spec_context() is None,
            },
    {
        match &mut self.context {
            Slot::Present(context) => {
                context.set_framebuffer_dimensions(new_dimensions);
                Ok(())
            },
            Slot::Extracted => Err(ContextError::InvalidStateAccess),
        }
    }

    /// Begins a frame: reads the framebuffer dimensions of the carried
    /// context and records them as the last-frame dimensions, so that the
    /// next frame can again be compared against them.  The frame's
    /// dimensions are returned; a display whose context is not current, or
    /// whose currency token is extracted, reports an invalid-state access
    /// and records nothing.
    pub fn draw(&mut self) -> (r: Result<(u32, u32), ContextError>)
        ensures
            final(self).spec_context() == old(self).spec_context(),
            r == (match old(self).spec_context() {
                Some(s) => spec_dimensions(s),
                None => Err::<(u32, u32), _>(ContextError::InvalidStateAccess),
            }),
            match r {
                Ok(d) => final(self).spec_last_dimensions() == d,
                Err(_) => final(self).spec_last_dimensions() == old(
                    self,
                ).spec_last_dimensions(),
            },
    {
        match &self.context {
            Slot::Present(context) => {
                match context.get_framebuffer_dimensions() {
                    Ok(dimensions) => {
                        if self.last_framebuffer_dimensions.0 != dimensions.0
                            || self.last_framebuffer_dimensions.1 != dimensions.1 {
                            self.last_framebuffer_dimensions = dimensions;
                        }
                        Ok(dimensions)
                    },
                    Err(e) => Err(e),
                }
            },
            Slot::Extracted => Err(ContextError::InvalidStateAccess),
        }
    }
}

impl Facade for Display {
    open spec fn context_available(&self) -> bool {
        self.spec_context() is Some
    }

    open spec fn facade_context(&self) -> ContextState {
        self.spec_context()->0
    }

    fn get_context(&self) -> (r: &BackendContext) {
        self.context.borrow()
    }
}

} // verus!
