//! Construction of a surface, stage by stage.
//!
//! Each stage is a type of its own. A stage says what is asked of the
//! platform next, takes the platform's answer, and yields the next stage or a
//! [`Failure`] that names the error and the resources to give up. Only the
//! last stage yields a [`GlutinSurface`], so no surface exists before the
//! window, the context, the rendering surface and the OpenGL state all do.
//!
//! A surface is uninitialised while it is [`Pending`], under construction
//! from [`WithWindow`] to [`Activated`], ready as a [`GlutinSurface`], and
//! destroyed once `destroy` has consumed it. A [`Failure`] ends a
//! construction for good: the stage it came from is consumed.

use crate::config::{ApiKind, ConfigDescriptor, ConfigTemplate, SelectedConfig};
use crate::context::{activate, activated, build_context, ContextAttributes, ContextRequest, RawContext, ActiveContext};
use crate::error::{Cause, GlutinError};
use crate::handle::{init_backend, initial_backend, GlutinSurface, Resource, SurfaceView};
use crate::surface::{build_surface, created_surface, Surface, SurfaceAttributes, SurfaceRequest};
use crate::window::{Window, WindowDescriptor};
use vstd::prelude::*;

verus! {

/// A construction that ended early.
#[derive(Clone, Debug, PartialEq, Eq)]
pub struct Failure {
    /// Why construction ended.
    pub error: GlutinError,
    /// The resources to give up, in this order.
    pub releases: Vec<Resource>,
}

/// Nothing has been created yet.
#[derive(Clone, Copy, Debug, PartialEq, Eq, Structural)]
pub struct Pending {
    /// How the window is asked for.
    pub window: WindowDescriptor,
    /// Context attributes of the caller.
    pub context: ContextAttributes,
    /// Surface attributes of the caller.
    pub surface: SurfaceAttributes,
    /// Requested configuration; its API family is OpenGL.
    pub config: ConfigDescriptor,
}

/// The window exists and a configuration was selected.
#[derive(Clone, Copy, Debug, PartialEq, Eq, Structural)]
pub struct WithWindow {
    /// The window.
    pub window: Window,
    /// The selected configuration.
    pub config: SelectedConfig,
    /// Context attributes of the caller.
    pub context: ContextAttributes,
    /// Surface attributes of the caller.
    pub surface: SurfaceAttributes,
}

/// The window and a context that is not current exist.
#[derive(Clone, Copy, Debug, PartialEq, Eq, Structural)]
pub struct WithContext {
    /// The window, with the size read after the context was created.
    pub window: Window,
    /// The context.
    pub context: RawContext,
    /// What the platform is asked to create the surface with.
    pub request: SurfaceRequest,
}

/// The window, the context and the surface exist; the context is not current.
#[derive(Clone, Copy, Debug, PartialEq, Eq, Structural)]
pub struct WithSurface {
    /// The window.
    pub window: Window,
    /// The context.
    pub context: RawContext,
    /// The surface.
    pub surface: Surface,
}

/// The context is current against the surface and the window is shown; the
/// OpenGL state has not been queried yet.
#[derive(Clone, Copy, Debug, PartialEq, Eq, Structural)]
pub struct Activated {
    /// The window.
    pub window: Window,
    /// The context.
    pub context: ActiveContext,
    /// The surface.
    pub surface: Surface,
}

impl WithWindow {
    /// The selected configuration supports its API and is double-buffered.
    pub open spec fn wf(self) -> bool {
        self.config.wf()
    }
}

impl WithContext {
    /// The context has a well-formed configuration, and the surface is asked
    /// for the window, at its size, which has no zero dimension, and never
    /// single-buffered.
    pub open spec fn wf(self) -> bool {
        &&& self.context.config.wf()
        &&& self.request.window_handle == self.window.handle
        &&& self.request.width == self.window.width
        &&& self.request.height == self.window.height
        &&& self.request.width != 0
        &&& self.request.height != 0
        &&& !self.request.single_buffer
    }
}

impl WithSurface {
    /// The context and the surface share one well-formed configuration, and
    /// the surface has the window's size, which has no zero dimension.
    pub open spec fn wf(self) -> bool {
        &&& self.context.config.wf()
        &&& self.surface.config == self.context.config
        &&& self.surface.width == self.window.width
        &&& self.surface.height == self.window.height
        &&& self.surface.width != 0
        &&& self.surface.height != 0
    }
}

impl Activated {
    /// As before activation, and the context is current against the surface
    /// and the window is shown.
    pub open spec fn wf(self) -> bool {
        &&& self.context.config.wf()
        &&& self.surface.config == self.context.config
        &&& self.context.surface == self.surface.id
        &&& self.surface.width == self.window.width
        &&& self.surface.height == self.window.height
        &&& self.surface.width != 0
        &&& self.surface.height != 0
        &&& self.window.visible
    }
}

/// The order in which the native resources are created.
pub open spec fn creation_order() -> Seq<Resource> {
    seq![Resource::Window, Resource::Context, Resource::Surface]
}

/// The order in which the first `created` resources are given up: each once,
/// the last created first.
pub open spec fn release_order(created: int) -> Seq<Resource> {
    creation_order().take(created).reverse()
}

/// Whether `res` is the failure with the given error and releases.
pub open spec fn fails_with<T>(res: Result<T, Failure>, error: GlutinError, releases: Seq<Resource>) -> bool {
    &&& res is Err
    &&& res->Err_0.error == error
    &&& res->Err_0.releases@ == releases
}

/// The failure `error` after `created` resources have been created.
fn failure(error: GlutinError, created: u8) -> (res: Failure)
    requires
        created <= 3,
    ensures
        res.error == error,
        res.releases@ == release_order(created as int),
{
    let mut releases: Vec<Resource> = Vec::new();
    if created >= 3 {
        releases.push(Resource::Surface);
    }
    if created >= 2 {
        releases.push(Resource::Context);
    }
    if created >= 1 {
        releases.push(Resource::Window);
    }
    assert(releases@ =~= release_order(created as int));
    Failure { error, releases }
}

impl GlutinSurface {
    /// Starts the construction of a surface from scratch: an OpenGL
    /// configuration with `samples` samples per pixel, and no attribute of the
    /// caller's.
    pub fn new_gl33(window: WindowDescriptor, samples: u8) -> (res: Pending)
        ensures
            res == (Pending {
                window,
                context: ContextAttributes { profile: None, version: None, debug: false },
                surface: SurfaceAttributes { single_buffer: false, srgb: false },
                config: ConfigDescriptor { api: ApiKind::OpenGl, samples, double_buffer: true },
            }),
    {
        GlutinSurface::new_gl33_windowed_with_builders(
            window,
            ContextAttributes::new(),
            SurfaceAttributes::new(),
            ConfigDescriptor { api: ApiKind::OpenGl, samples, double_buffer: true },
        )
    }

    /// Starts the construction of a surface from the caller's attributes.
    ///
    /// This is the most flexible way of creating a [`GlutinSurface`]. The
    /// configuration is asked for OpenGL whatever API family `config` names;
    /// the later stages switch single buffering off and ask for a 3.3 core
    /// context.
    pub fn new_gl33_windowed_with_builders(
        window: WindowDescriptor,
        context: ContextAttributes,
        surface: SurfaceAttributes,
        config: ConfigDescriptor,
    ) -> (res: Pending)
        ensures
            res == (Pending {
                window,
                context,
                surface,
                config: ConfigDescriptor { api: ApiKind::OpenGl, ..config },
            }),
    {
        Pending {
            window,
            context,
            surface,
            config: ConfigDescriptor { api: ApiKind::OpenGl, samples: config.samples, double_buffer: config.double_buffer },
        }
    }
}

/// What the window system answered: the window, if it made one, and the
/// selected configuration; or why it failed.
pub open spec fn provisioned(built: Result<(Option<Window>, SelectedConfig), Cause>) -> Result<
    (Window, SelectedConfig),
    GlutinError,
> {
    match built {
        Err(cause) => Err(GlutinError::CreateWindowError(cause)),
        Ok((None, _)) => Err(GlutinError::NoWindowError),
        Ok((Some(window), config)) => Ok((window, config)),
    }
}

/// Turns the window system's answer into the window and the selected
/// configuration. A failure of the window system is `CreateWindowError` with
/// its cause; a success without a window is `NoWindowError`.
pub fn provision(built: Result<(Option<Window>, SelectedConfig), Cause>) -> (res: Result<
    (Window, SelectedConfig),
    GlutinError,
>)
    ensures
        res == provisioned(built),
{
    match built {
        Err(cause) => Err(GlutinError::CreateWindowError(cause)),
        Ok((None, _)) => Err(GlutinError::NoWindowError),
        Ok((Some(window), config)) => Ok((window, config)),
    }
}

impl Pending {
    /// What the window system is asked: the window, and the template that the
    /// configurations are enumerated with.
    pub fn window_request(&self) -> (res: (WindowDescriptor, ConfigTemplate))
        ensures
            res == (self.window, self.config.template_spec()),
    {
        (self.window, self.config.template())
    }

    /// Ends the construction because no configuration could be selected.
    /// Selection comes before anything is created, so nothing is released.
    pub fn selection_failed(self, error: GlutinError) -> (res: Failure)
        ensures
            res.error == error,
            res.releases@ == release_order(0),
    {
        failure(error, 0)
    }

    /// Takes the window system's answer. Where it failed or made no window,
    /// nothing has been created and the failure releases nothing. Where it
    /// made a window with a configuration that does not support its API or
    /// is not double-buffered, the failure is `NoCompatibleConfig` and
    /// releases the window.
    pub fn window_built(self, built: Result<(Option<Window>, SelectedConfig), Cause>) -> (res: Result<
        WithWindow,
        Failure,
    >)
        ensures
            match provisioned(built) {
                Ok((window, config)) => if config.wf() {
                    res == Ok::<WithWindow, Failure>(
                        WithWindow { window, config, context: self.context, surface: self.surface },
                    )
                } else {
                    fails_with(res, GlutinError::NoCompatibleConfig, release_order(1))
                },
                Err(error) => fails_with(res, error, release_order(0)),
            },
            res is Ok ==> res->Ok_0.wf(),
    {
        match provision(built) {
            Ok((window, config)) => {
                if config.is_usable() {
                    Ok(WithWindow { window, config, context: self.context, surface: self.surface })
                } else {
                    Err(failure(GlutinError::NoCompatibleConfig, 1))
                }
            },
            Err(error) => Err(failure(error, 0)),
        }
    }
}

impl WithWindow {
    /// What the platform is asked to create the context with: 3.3 core,
    /// compatible with the window.
    pub fn context_request(&self) -> (res: ContextRequest)
        ensures
            res == self.context.request_spec(self.window.handle),
    {
        self.context.request(self.window.raw_handle())
    }

    /// Takes the platform's answer to the context request, and the window's
    /// inner size as read right after it.
    ///
    /// A failure of the platform is `ContextError` with its cause and releases
    /// the window. A context for a window with a zero width or height is
    /// `InvalidSurfaceSize` and releases the context, then the window.
    pub fn context_created(self, outcome: Result<u64, Cause>, width: u32, height: u32) -> (res: Result<
        WithContext,
        Failure,
    >)
        ensures
            match outcome {
                Err(cause) => fails_with(res, GlutinError::ContextError(cause), release_order(1)),
                Ok(id) => if width == 0 || height == 0 {
                    fails_with(res, GlutinError::InvalidSurfaceSize, release_order(2))
                } else {
                    res == Ok::<WithContext, Failure>(
                        WithContext {
                            window: Window { width, height, ..self.window },
                            context: RawContext { id, config: self.config },
                            request: self.surface.request_spec(Window { width, height, ..self.window }),
                        },
                    )
                },
            },
            res is Ok && self.wf() ==> res->Ok_0.wf(),
    {
        let context = match build_context(self.config, outcome) {
            Ok(context) => context,
            Err(error) => {
                return Err(failure(error, 1));
            },
        };
        let mut window = self.window;
        window.set_inner_size(width, height);
        match self.surface.request(&window) {
            Ok(request) => Ok(WithContext { window, context, request }),
            Err(error) => Err(failure(error, 2)),
        }
    }
}

impl WithContext {
    /// What the platform is asked to create the surface with.
    pub fn surface_request(&self) -> (res: SurfaceRequest)
        ensures
            res == self.request,
    {
        self.request
    }

    /// Takes the platform's answer to the surface request. A failure is
    /// `SurfaceError` with its cause and releases the context, then the
    /// window.
    pub fn surface_created(self, outcome: Result<u64, Cause>) -> (res: Result<WithSurface, Failure>)
        ensures
            match outcome {
                Err(cause) => fails_with(res, GlutinError::SurfaceError(cause), release_order(2)),
                Ok(id) => res == Ok::<WithSurface, Failure>(
                    WithSurface {
                        window: self.window,
                        context: self.context,
                        surface: created_surface(self.context.config, self.request, id),
                    },
                ),
            },
            res is Ok && self.wf() ==> res->Ok_0.wf(),
    {
        match build_surface(self.context.config, self.request, outcome) {
            Ok(surface) => Ok(WithSurface { window: self.window, context: self.context, surface }),
            Err(error) => Err(failure(error, 2)),
        }
    }
}

impl WithSurface {
    /// Takes the platform's answer to making the context current against the
    /// surface. On success the OpenGL symbols can be loaded and the window is
    /// to be shown. A failure is `ActivationError` with its cause and releases
    /// the surface, the context, then the window.
    pub fn activated(self, outcome: Result<(), Cause>) -> (res: Result<Activated, Failure>)
        ensures
            match outcome {
                Err(cause) => fails_with(res, GlutinError::ActivationError(cause), release_order(3)),
                Ok(_) => res == Ok::<Activated, Failure>(
                    Activated {
                        window: Window { visible: true, ..self.window },
                        context: activated(self.context, self.surface),
                        surface: self.surface,
                    },
                ),
            },
            res is Ok && self.wf() ==> res->Ok_0.wf(),
    {
        match activate(self.context, &self.surface, outcome) {
            Ok(context) => {
                let mut window = self.window;
                window.set_visible(true);
                Ok(Activated { window, context, surface: self.surface })
            },
            Err((error, _)) => Err(failure(error, 3)),
        }
    }
}

impl Activated {
    /// Takes the answer of the first query of the OpenGL state, and yields the
    /// ready surface. A failure is `GraphicsStateError` with its cause and
    /// releases the surface, the context, then the window.
    pub fn backend_initialized(self, outcome: Result<(), Cause>) -> (res: Result<GlutinSurface, Failure>)
        ensures
            match outcome {
                Err(cause) => fails_with(res, GlutinError::GraphicsStateError(cause), release_order(3)),
                Ok(_) => res is Ok && res->Ok_0@ == (SurfaceView {
                    ctx: self.context,
                    surface: self.surface,
                    window: self.window,
                    gl: initial_backend(self.context.id),
                }),
            },
            res is Ok && self.wf() ==> {
                &&& res->Ok_0@.wf()
                &&& res->Ok_0@.window.visible
                &&& res->Ok_0@.after_resize() == res->Ok_0@
            },
    {
        match init_backend(&self.context, outcome) {
            Ok(gl) => Ok(GlutinSurface::assemble(self.context, self.surface, self.window, gl)),
            Err(error) => Err(failure(error, 3)),
        }
    }
}

/// A failure after `created` resources releases exactly those resources, each
/// once, the last created first; a ready surface gives up all three that way.
pub proof fn lemma_release_order(created: int)
    requires
        0 <= created <= 3,
    ensures
        release_order(created).len() == created,
        release_order(created).no_duplicates(),
        forall|r: Resource| release_order(created).contains(r) <==> creation_order().take(created).contains(r),
        forall|i: int|
            0 <= i < created ==> release_order(created)[i] == creation_order()[created - 1 - i],
        crate::handle::destruction_order() == release_order(3),
{
    let order = release_order(created);
    let made = creation_order().take(created);
    assert forall|r: Resource| order.contains(r) <==> made.contains(r) by {
        if order.contains(r) {
            let i = choose|i: int| 0 <= i < order.len() && order[i] == r;
            assert(made[created - 1 - i] == r);
        }
        if made.contains(r) {
            let i = choose|i: int| 0 <= i < made.len() && made[i] == r;
            assert(order[created - 1 - i] == r);
        }
    }
    assert(crate::handle::destruction_order() =~= release_order(3));
}

} // verus!
