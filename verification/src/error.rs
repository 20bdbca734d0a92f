//! Errors reported by surface construction and by a ready surface.

use vstd::prelude::*;

verus! {

/// The category of a platform error, as glutin tells them apart.
#[derive(Clone, Debug, PartialEq, Eq)]
pub enum CauseKind {
    /// The requested display wasn't found or a required symbol was missing.
    NotFound,
    /// Failed to perform resource initialization.
    InitializationFailed,
    /// Can't access a requested resource.
    BadAccess,
    /// An allocation failed.
    OutOfMemory,
    /// An unrecognized attribute or attribute value was passed.
    BadAttribute,
    /// The context is no longer valid.
    BadContext,
    /// The context is in a bad state.
    BadContextState,
    /// Invalid config was passed.
    BadConfig,
    /// The current surface is no longer valid.
    BadCurrentSurface,
    /// The display is no longer valid.
    BadDisplay,
    /// The surface is invalid.
    BadSurface,
    /// The pbuffer is invalid.
    BadPbuffer,
    /// The pixmap is invalid.
    BadPixmap,
    /// Arguments are inconsistent.
    BadMatch,
    /// One or more argument values are invalid.
    BadParameter,
    /// Bad native pixmap was provided.
    BadNativePixmap,
    /// Bad native window was provided.
    BadNativeWindow,
    /// The context was lost.
    ContextLost,
    /// The operation is not supported by the platform, with the reason.
    NotSupported(String),
    /// The misc error that can't be classified occurred.
    Misc,
}

/// What the platform reported when one of its calls failed: the category,
/// the raw code and the text of the error, as far as the platform gave them.
///
/// The library never changes a cause: an error carries the cause it was
/// given.
#[derive(Clone, Debug, PartialEq, Eq)]
pub struct Cause {
    /// Category of the error; `None` where the error is not glutin's.
    pub kind: Option<CauseKind>,
    /// Raw platform error code, where the platform gave one.
    pub code: Option<i64>,
    /// Platform message, empty when the platform gave none.
    pub message: String,
}

/// Error that might occur when creating or driving a surface.
#[derive(Clone, Debug, PartialEq, Eq)]
pub enum GlutinError {
    /// No enumerated configuration supports the requested API.
    NoCompatibleConfig,
    /// The window system failed to build the window.
    CreateWindowError(Cause),
    /// The window system reported success but handed no window back.
    NoWindowError,
    /// OpenGL context creation error.
    ContextError(Cause),
    /// The context could not be made current against the surface.
    ActivationError(Cause),
    /// The presentable surface could not be created.
    SurfaceError(Cause),
    /// The window has a zero width or height.
    InvalidSurfaceSize,
    /// Graphics state error that might occur when querying the initial state.
    GraphicsStateError(Cause),
    /// Swapping the buffers failed.
    PresentError(Cause),
    /// The back buffer could not be wrapped as a render target.
    FramebufferError(Cause),
    /// The swap interval could not be set.
    SwapIntervalError(Cause),
}

impl GlutinError {
    /// The platform cause carried by this error, if it has one.
    pub open spec fn cause(self) -> Option<Cause> {
        match self {
            GlutinError::NoCompatibleConfig => None,
            GlutinError::CreateWindowError(c) => Some(c),
            GlutinError::NoWindowError => None,
            GlutinError::ContextError(c) => Some(c),
            GlutinError::ActivationError(c) => Some(c),
            GlutinError::SurfaceError(c) => Some(c),
            GlutinError::InvalidSurfaceSize => None,
            GlutinError::GraphicsStateError(c) => Some(c),
            GlutinError::PresentError(c) => Some(c),
            GlutinError::FramebufferError(c) => Some(c),
            GlutinError::SwapIntervalError(c) => Some(c),
        }
    }

    /// The fixed text that introduces this kind of error.
    pub open spec fn headline_text(self) -> &'static str {
        match self {
            GlutinError::NoCompatibleConfig => "No compatible display configuration",
            GlutinError::CreateWindowError(_) => "Window creation error",
            GlutinError::NoWindowError => "Display builder did not return a window",
            GlutinError::ContextError(_) => "Glutin OpenGL context creation error",
            GlutinError::ActivationError(_) => "OpenGL context activation error",
            GlutinError::SurfaceError(_) => "Window surface creation error",
            GlutinError::InvalidSurfaceSize => "Window has a zero dimension",
            GlutinError::GraphicsStateError(_) => "OpenGL graphics state initialization error",
            GlutinError::PresentError(_) => "Buffer swap error",
            GlutinError::FramebufferError(_) => "Back buffer error",
            GlutinError::SwapIntervalError(_) => "Swap interval error",
        }
    }

    /// The whole text of the error: the headline, and where there is a cause,
    /// a colon, a space and the cause's message.
    pub open spec fn message_text(self) -> Seq<char> {
        match self.cause() {
            Some(c) => self.headline_text()@ + ": "@ + c.message@,
            None => self.headline_text()@,
        }
    }

    /// Borrows the underlying platform cause; `None` for the kinds that are
    /// raised by this library itself.
    pub fn source(&self) -> (res: Option<&Cause>)
        ensures
            res.is_some() == self.cause().is_some(),
            res.is_some() ==> *res.unwrap() == self.cause().unwrap(),
    {
        match self {
            GlutinError::NoCompatibleConfig => None,
            GlutinError::CreateWindowError(c) => Some(c),
            GlutinError::NoWindowError => None,
            GlutinError::ContextError(c) => Some(c),
            GlutinError::ActivationError(c) => Some(c),
            GlutinError::SurfaceError(c) => Some(c),
            GlutinError::InvalidSurfaceSize => None,
            GlutinError::GraphicsStateError(c) => Some(c),
            GlutinError::PresentError(c) => Some(c),
            GlutinError::FramebufferError(c) => Some(c),
            GlutinError::SwapIntervalError(c) => Some(c),
        }
    }

    /// The text that introduces this kind of error in a report; a cause, where
    /// there is one, is printed after it.
    pub fn headline(&self) -> (res: &'static str)
        ensures
            res == self.headline_text(),
    {
        match self {
            GlutinError::NoCompatibleConfig => "No compatible display configuration",
            GlutinError::CreateWindowError(_) => "Window creation error",
            GlutinError::NoWindowError => "Display builder did not return a window",
            GlutinError::ContextError(_) => "Glutin OpenGL context creation error",
            GlutinError::ActivationError(_) => "OpenGL context activation error",
            GlutinError::SurfaceError(_) => "Window surface creation error",
            GlutinError::InvalidSurfaceSize => "Window has a zero dimension",
            GlutinError::GraphicsStateError(_) => "OpenGL graphics state initialization error",
            GlutinError::PresentError(_) => "Buffer swap error",
            GlutinError::FramebufferError(_) => "Back buffer error",
            GlutinError::SwapIntervalError(_) => "Swap interval error",
        }
    }

    /// The whole text of the error: the headline, and where there is a cause,
    /// a colon, a space and the cause's message.
    pub fn message(&self) -> (res: String)
        ensures
            res@ == self.message_text(),
    {
        let head = String::from_str(self.headline());
        match self.source() {
            Some(cause) => head.concat(": ").concat(cause.message.as_str()),
            None => head,
        }
    }
}

} // verus!
