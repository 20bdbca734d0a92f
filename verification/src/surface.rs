//! The presentable surface of a window.

use crate::config::SelectedConfig;
use crate::error::{Cause, GlutinError};
use crate::window::Window;
use vstd::prelude::*;

verus! {

/// How presentation is synchronised with the display.
#[derive(Clone, Copy, Debug, PartialEq, Eq, Structural)]
pub enum PresentInterval {
    /// Presentation returns without waiting for the display.
    DontWait,
    /// Presentation waits for the given number of vertical blanks.
    Wait(u32),
}

/// One of the two buffers of a surface.
#[derive(Clone, Copy, Debug, PartialEq, Eq, Structural)]
pub enum BufferSlot {
    /// The first buffer.
    First,
    /// The second buffer.
    Second,
}

/// Surface attributes as a caller supplies them.
#[derive(Clone, Copy, Debug, PartialEq, Eq, Structural)]
pub struct SurfaceAttributes {
    /// Whether the caller asks for a single buffer. Never honoured.
    pub single_buffer: bool,
    /// Whether an sRGB surface is asked for.
    pub srgb: bool,
}

/// What the platform is asked to create a surface with.
#[derive(Clone, Copy, Debug, PartialEq, Eq, Structural)]
pub struct SurfaceRequest {
    /// Native handle of the window.
    pub window_handle: u64,
    /// Width in physical pixels, never 0.
    pub width: u32,
    /// Height in physical pixels, never 0.
    pub height: u32,
    /// Whether a single buffer is asked for; always `false`.
    pub single_buffer: bool,
    /// Whether an sRGB surface is asked for.
    pub srgb: bool,
}

/// A presentable pair of buffers.
#[derive(Clone, Copy, Debug, PartialEq, Eq, Structural)]
pub struct Surface {
    /// Native handle of the surface.
    pub id: u64,
    /// Configuration it was created with.
    pub config: SelectedConfig,
    /// Width in physical pixels.
    pub width: u32,
    /// Height in physical pixels.
    pub height: u32,
    /// The buffer that is rendered into.
    pub back: BufferSlot,
    /// Swap interval in force; `None` while none was set and the platform's
    /// default applies.
    pub interval: Option<PresentInterval>,
}

impl BufferSlot {
    /// The other buffer of the pair.
    pub open spec fn other_spec(self) -> BufferSlot {
        match self {
            BufferSlot::First => BufferSlot::Second,
            BufferSlot::Second => BufferSlot::First,
        }
    }

    /// The other buffer of the pair.
    pub fn other(self) -> (res: BufferSlot)
        ensures
            res == self.other_spec(),
    {
        match self {
            BufferSlot::First => BufferSlot::Second,
            BufferSlot::Second => BufferSlot::First,
        }
    }
}

impl PresentInterval {
    /// The number of vertical blanks a presentation waits for.
    pub open spec fn blanks_spec(self) -> u32 {
        match self {
            PresentInterval::DontWait => 0,
            PresentInterval::Wait(n) => n,
        }
    }

    /// The interval that waits for `blanks` vertical blanks; 0 is `DontWait`.
    pub open spec fn of_blanks(blanks: u32) -> PresentInterval {
        if blanks == 0 {
            PresentInterval::DontWait
        } else {
            PresentInterval::Wait(blanks)
        }
    }

    /// The interval as the platform is asked for it: a wait of 0 vertical
    /// blanks is `DontWait`.
    pub open spec fn normalized(self) -> PresentInterval {
        PresentInterval::of_blanks(self.blanks_spec())
    }

    /// The interval that waits for `blanks` vertical blanks; 0 is `DontWait`.
    pub fn from_blanks(blanks: u32) -> (res: PresentInterval)
        ensures
            res == PresentInterval::of_blanks(blanks),
            res.blanks_spec() == blanks,
    {
        if blanks == 0 {
            PresentInterval::DontWait
        } else {
            PresentInterval::Wait(blanks)
        }
    }

    /// The number of vertical blanks a presentation waits for.
    pub fn blanks(&self) -> (res: u32)
        ensures
            res == self.blanks_spec(),
    {
        match self {
            PresentInterval::DontWait => 0,
            PresentInterval::Wait(n) => *n,
        }
    }
}

impl SurfaceAttributes {
    /// Attributes with nothing asked for.
    pub fn new() -> (res: SurfaceAttributes)
        ensures
            res == (SurfaceAttributes { single_buffer: false, srgb: false }),
    {
        SurfaceAttributes { single_buffer: false, srgb: false }
    }

    /// The request made of the platform for a window of the given size.
    pub open spec fn request_spec(self, window: Window) -> SurfaceRequest {
        SurfaceRequest {
            window_handle: window.handle,
            width: window.width,
            height: window.height,
            single_buffer: false,
            srgb: self.srgb,
        }
    }

    /// Builds the request made of the platform: a surface of the window's
    /// size, never single-buffered. A window with a zero width or height gives
    /// `InvalidSurfaceSize`.
    pub fn request(&self, window: &Window) -> (res: Result<SurfaceRequest, GlutinError>)
        ensures
            res == (if window.width == 0 || window.height == 0 {
                Err::<SurfaceRequest, GlutinError>(GlutinError::InvalidSurfaceSize)
            } else {
                Ok::<SurfaceRequest, GlutinError>(self.request_spec(*window))
            }),
    {
        if window.width == 0 || window.height == 0 {
            Err(GlutinError::InvalidSurfaceSize)
        } else {
            Ok(
                SurfaceRequest {
                    window_handle: window.handle,
                    width: window.width,
                    height: window.height,
                    single_buffer: false,
                    srgb: self.srgb,
                },
            )
        }
    }
}

/// The surface the platform created for `request`, under the handle `id`. No
/// swap interval is set on it yet.
pub open spec fn created_surface(config: SelectedConfig, request: SurfaceRequest, id: u64) -> Surface {
    Surface {
        id,
        config,
        width: request.width,
        height: request.height,
        back: BufferSlot::First,
        interval: None,
    }
}

/// Turns the platform's answer to a surface request into a surface, or into
/// `SurfaceError` with the platform's cause.
pub fn build_surface(config: SelectedConfig, request: SurfaceRequest, outcome: Result<u64, Cause>) -> (res:
    Result<Surface, GlutinError>)
    ensures
        res == (match outcome {
            Ok(id) => Ok::<Surface, GlutinError>(created_surface(config, request, id)),
            Err(cause) => Err::<Surface, GlutinError>(GlutinError::SurfaceError(cause)),
        }),
{
    match outcome {
        Ok(id) => Ok(
            Surface {
                id,
                config,
                width: request.width,
                height: request.height,
                back: BufferSlot::First,
                interval: None,
            },
        ),
        Err(cause) => Err(GlutinError::SurfaceError(cause)),
    }
}

} // verus!
