//! The ready surface and its lifecycle operations.

use crate::context::ActiveContext;
use crate::error::{Cause, GlutinError};
use crate::surface::{BufferSlot, Surface, PresentInterval};
use crate::window::Window;
use vstd::prelude::*;

verus! {

/// A native resource owned by a surface under construction or ready.
#[derive(Clone, Copy, Debug, PartialEq, Eq, Structural)]
pub enum Resource {
    /// The native window.
    Window,
    /// The OpenGL context.
    Context,
    /// The presentable surface.
    Surface,
}

/// OpenGL 3.3 state: the context it was initialised against and the cache of
/// what is bound in the driver.
#[derive(Clone, Copy, Debug, PartialEq, Eq, Structural)]
pub struct BackendState {
    /// Native handle of the context the state was queried from.
    pub context: u64,
    /// Program bound in the driver, 0 for none.
    pub bound_program: u32,
    /// Array buffer bound in the driver, 0 for none.
    pub bound_array_buffer: u32,
}

/// The back buffer wrapped as a render target.
#[derive(Clone, Copy, Debug, PartialEq, Eq, Structural)]
pub struct RenderTarget {
    /// Width in physical pixels.
    pub width: u32,
    /// Height in physical pixels.
    pub height: u32,
    /// The buffer that is rendered into.
    pub buffer: BufferSlot,
}

/// What a ready surface owns.
#[derive(Clone, Copy, Debug, PartialEq, Eq, Structural)]
pub struct SurfaceView {
    /// The context, current against the surface.
    pub ctx: ActiveContext,
    /// The window rendering surface.
    pub surface: Surface,
    /// The window.
    pub window: Window,
    /// OpenGL 3.3 state.
    pub gl: BackendState,
}

/// The Glutin surface.
///
/// It owns the window, the context made current, the rendering surface and
/// the OpenGL state, and exists only once all four have been created.
#[derive(Debug)]
pub struct GlutinSurface {
    /// The windowed context.
    pub ctx: ActiveContext,
    /// The window rendering surface
    surface: Surface,
    /// The window
    window: Window,
    /// OpenGL 3.3 state.
    gl: BackendState,
}

impl SurfaceView {
    /// The context and the surface share one configuration, which is double
    /// buffered and supports its API; the context is current against the
    /// surface; the OpenGL state belongs to the context; and the surface has no
    /// zero dimension.
    pub open spec fn wf(self) -> bool {
        &&& self.ctx.config == self.surface.config
        &&& self.ctx.config.wf()
        &&& self.ctx.surface == self.surface.id
        &&& self.gl.context == self.ctx.id
        &&& self.surface.width != 0
        &&& self.surface.height != 0
    }

    /// Whether the window can be rendered to: it has no zero dimension.
    pub open spec fn window_renderable(self) -> bool {
        self.window.width != 0 && self.window.height != 0
    }

    /// The state after a resize: the surface takes the window's size where the
    /// window can be rendered to, and nothing changes where it cannot.
    pub open spec fn after_resize(self) -> SurfaceView {
        if self.window_renderable() {
            SurfaceView {
                surface: Surface { width: self.window.width, height: self.window.height, ..self.surface },
                ..self
            }
        } else {
            self
        }
    }

    /// The state after a presentation that the platform carried out: the two
    /// buffers have changed places.
    pub open spec fn after_present(self) -> SurfaceView {
        SurfaceView { surface: Surface { back: self.surface.back.other_spec(), ..self.surface }, ..self }
    }

    /// The state after the window system has reported a new inner size.
    pub open spec fn after_window_resized(self, width: u32, height: u32) -> SurfaceView {
        SurfaceView { window: Window { width, height, ..self.window }, ..self }
    }

    /// The state with another swap interval in force, as the platform is
    /// asked for it: a wait of 0 vertical blanks is `DontWait`.
    pub open spec fn with_interval(self, interval: PresentInterval) -> SurfaceView {
        SurfaceView { surface: Surface { interval: Some(interval.normalized()), ..self.surface }, ..self }
    }
}

/// The OpenGL state right after it was queried from the context `context`:
/// nothing is bound.
pub open spec fn initial_backend(context: u64) -> BackendState {
    BackendState { context, bound_program: 0, bound_array_buffer: 0 }
}

/// Turns the answer of the first query of the OpenGL state, made once the
/// context is current and the symbols are loaded, into the state of the
/// backend, or into `GraphicsStateError` with the driver's cause.
pub fn init_backend(context: &ActiveContext, outcome: Result<(), Cause>) -> (res: Result<BackendState, GlutinError>)
    ensures
        res == (match outcome {
            Ok(_) => Ok::<BackendState, GlutinError>(initial_backend(context.id)),
            Err(cause) => Err::<BackendState, GlutinError>(GlutinError::GraphicsStateError(cause)),
        }),
{
    match outcome {
        Ok(_) => Ok(BackendState { context: context.id, bound_program: 0, bound_array_buffer: 0 }),
        Err(cause) => Err(GlutinError::GraphicsStateError(cause)),
    }
}

/// The order in which a ready surface gives its resources up: the surface and
/// the context go before the window they refer to.
pub open spec fn destruction_order() -> Seq<Resource> {
    seq![Resource::Surface, Resource::Context, Resource::Window]
}

impl View for GlutinSurface {
    type V = SurfaceView;

    closed spec fn view(&self) -> SurfaceView {
        SurfaceView { ctx: self.ctx, surface: self.surface, window: self.window, gl: self.gl }
    }
}

impl GlutinSurface {
    /// Puts a ready surface together from its four parts.
    pub(crate) fn assemble(ctx: ActiveContext, surface: Surface, window: Window, gl: BackendState) -> (res:
        GlutinSurface)
        ensures
            res@ == (SurfaceView { ctx, surface, window, gl }),
    {
        GlutinSurface { ctx, surface, window, gl }
    }

    /// Get the underlying size (in physical pixels) of the surface.
    ///
    /// This is the inner size of the window as the window system last
    /// reported it, not the size the buffers were last resized to.
    pub fn size(&self) -> (res: [u32; 2])
        ensures
            res@ == self@.window.size_spec(),
    {
        self.window.inner_size()
    }

    /// Records the inner size that the window system reports for the window.
    /// The buffers keep their size until `resize` is called.
    pub fn window_resized(&mut self, width: u32, height: u32)
        ensures
            final(self)@ == old(self)@.after_window_resized(width, height),
    {
        self.window.set_inner_size(width, height);
    }

    /// Notify the context of a window resize.
    ///
    /// Should be called in response to window resize events. The buffers take
    /// the window's size; the context and the configuration are untouched. A
    /// window with a zero width or height gives `InvalidSurfaceSize` and
    /// changes nothing.
    pub fn resize(&mut self) -> (res: Result<(), GlutinError>)
        ensures
            final(self)@ == old(self)@.after_resize(),
            res == (if old(self)@.window_renderable() {
                Ok::<(), GlutinError>(())
            } else {
                Err::<(), GlutinError>(GlutinError::InvalidSurfaceSize)
            }),
            old(self)@.wf() ==> final(self)@.wf(),
    {
        if self.window.width == 0 || self.window.height == 0 {
            return Err(GlutinError::InvalidSurfaceSize);
        }
        self.surface.width = self.window.width;
        self.surface.height = self.window.height;
        Ok(())
    }

    /// Get access to the back buffer.
    ///
    /// `outcome` is what the backend answered when asked to wrap the back
    /// buffer at `size`. On success the target has that size and is the buffer
    /// being rendered into; a failure is reported as `FramebufferError` with
    /// the backend's cause. The surface is unchanged either way.
    pub fn back_buffer(&mut self, size: [u32; 2], outcome: Result<(), Cause>) -> (res: Result<
        RenderTarget,
        GlutinError,
    >)
        ensures
            final(self)@ == old(self)@,
            res == (match outcome {
                Ok(_) => Ok::<RenderTarget, GlutinError>(
                    RenderTarget { width: size@[0], height: size@[1], buffer: old(self)@.surface.back },
                ),
                Err(cause) => Err::<RenderTarget, GlutinError>(GlutinError::FramebufferError(cause)),
            }),
    {
        match outcome {
            Ok(_) => Ok(RenderTarget { width: size[0], height: size[1], buffer: self.surface.back }),
            Err(cause) => Err(GlutinError::FramebufferError(cause)),
        }
    }

    /// The number of vertical blanks the platform waits for when the buffers
    /// are swapped: none when the swap interval is `DontWait`, and `None`
    /// while no interval was set and the platform's default applies.
    pub fn present_wait(&self) -> (res: Option<u32>)
        ensures
            res == (match self@.surface.interval {
                Some(interval) => Some(interval.blanks_spec()),
                None => None,
            }),
            self@.surface.interval == Some(PresentInterval::DontWait) ==> res == Some(0u32),
    {
        match self.surface.interval {
            Some(interval) => Some(interval.blanks()),
            None => None,
        }
    }

    /// Swap the back and front buffers.
    ///
    /// `outcome` is what the platform answered to the swap. On success the two
    /// buffers change places. A failure is reported as `PresentError` with the
    /// platform's cause and leaves the surface as it was; nothing is retried.
    pub fn swap_buffers(&mut self, outcome: Result<(), Cause>) -> (res: Result<(), GlutinError>)
        ensures
            res == (match outcome {
                Ok(_) => Ok::<(), GlutinError>(()),
                Err(cause) => Err::<(), GlutinError>(GlutinError::PresentError(cause)),
            }),
            final(self)@ == (if outcome is Ok {
                old(self)@.after_present()
            } else {
                old(self)@
            }),
            old(self)@.wf() ==> final(self)@.wf(),
    {
        match outcome {
            Ok(_) => {
                self.surface.back = self.surface.back.other();
                Ok(())
            },
            Err(cause) => Err(GlutinError::PresentError(cause)),
        }
    }

    /// Gets the underlying window
    pub fn window(&self) -> (res: &Window)
        ensures
            *res == self@.window,
    {
        &self.window
    }

    /// Sets the swap interval for the surface.
    ///
    /// `outcome` is what the platform answered to the change. On success the
    /// interval is in force, a wait of 0 vertical blanks as `DontWait`. A
    /// failure is reported as `SwapIntervalError` with the platform's cause
    /// and leaves the earlier interval in force.
    pub fn set_swap_interval(&mut self, interval: PresentInterval, outcome: Result<(), Cause>) -> (res: Result<
        (),
        GlutinError,
    >)
        ensures
            res == (match outcome {
                Ok(_) => Ok::<(), GlutinError>(()),
                Err(cause) => Err::<(), GlutinError>(GlutinError::SwapIntervalError(cause)),
            }),
            final(self)@ == (if outcome is Ok {
                old(self)@.with_interval(interval)
            } else {
                old(self)@
            }),
            old(self)@.wf() ==> final(self)@.wf(),
    {
        match outcome {
            Ok(_) => {
                self.surface.interval = Some(PresentInterval::from_blanks(interval.blanks()));
                Ok(())
            },
            Err(cause) => Err(GlutinError::SwapIntervalError(cause)),
        }
    }

    /// Lends the OpenGL state to the rendering layer, exclusively. Whatever
    /// the borrower writes is the state afterwards; nothing else of the
    /// surface changes.
    pub fn backend(&mut self) -> (res: &mut BackendState)
        ensures
            *res == old(self)@.gl,
            final(self)@ == (SurfaceView { gl: *final(res), ..old(self)@ }),
    {
        &mut self.gl
    }

    /// Ends the surface and tells in which order its resources are given up:
    /// the surface, then the context, then the window.
    pub fn destroy(self) -> (res: Vec<Resource>)
        ensures
            res@ == destruction_order(),
    {
        let mut order: Vec<Resource> = Vec::new();
        order.push(Resource::Surface);
        order.push(Resource::Context);
        order.push(Resource::Window);
        assert(order@ =~= destruction_order());
        order
    }
}

/// Resizing twice is resizing once.
pub proof fn lemma_resize_idempotent(state: SurfaceView)
    ensures
        state.after_resize().after_resize() == state.after_resize(),
{
}

/// A resize while the buffers already have the window's size changes nothing
/// and succeeds.
pub proof fn lemma_resize_unchanged_size(state: SurfaceView)
    requires
        state.window_renderable(),
        state.surface.width == state.window.width,
        state.surface.height == state.window.height,
    ensures
        state.after_resize() == state,
{
}

/// After the window system has reported a size and the surface was resized,
/// the size of the window is the reported one, and where it can be rendered to
/// the buffers have that size too.
pub proof fn lemma_size_after_resize(state: SurfaceView, width: u32, height: u32)
    ensures
        state.after_window_resized(width, height).after_resize().window.size_spec() == seq![width, height],
        width != 0 && height != 0 ==> {
            &&& state.after_window_resized(width, height).after_resize().surface.width == width
            &&& state.after_window_resized(width, height).after_resize().surface.height == height
        },
{
}

/// Presenting changes which buffer is rendered into and nothing else, and
/// presenting twice brings the first buffer back.
pub proof fn lemma_present_rotates(state: SurfaceView)
    ensures
        state.after_present().surface.back != state.surface.back,
        state.after_present().after_present() == state,
{
}

} // verus!
