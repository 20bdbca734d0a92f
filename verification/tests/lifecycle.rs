use luminance_glutin::config::{ApiKind, PlatformConfig, SelectedConfig};
use luminance_glutin::error::{Cause, CauseKind, GlutinError};
use luminance_glutin::context::ActiveContext;
use luminance_glutin::handle::{init_backend, BackendState, GlutinSurface, RenderTarget, Resource};
use luminance_glutin::surface::{BufferSlot, PresentInterval};
use luminance_glutin::window::{Window, WindowDescriptor};

fn cause(code: i64, message: &str) -> Cause {
    Cause { kind: Some(CauseKind::BadMatch), code: Some(code), message: message.to_string() }
}

fn ready() -> GlutinSurface {
    let config = SelectedConfig {
        config: PlatformConfig { id: 5, opengl: true, gles1: false, gles2: false, gles3: false, samples: 0 },
        api: ApiKind::OpenGl,
        double_buffered: true,
    };
    let window = Window { handle: 1, width: 800, height: 600, visible: false };
    GlutinSurface::new_gl33(WindowDescriptor { width: 800, height: 600, resizable: true }, 0)
        .window_built(Ok((Some(window), config)))
        .unwrap()
        .context_created(Ok(2), 800, 600)
        .unwrap()
        .surface_created(Ok(3))
        .unwrap()
        .activated(Ok(()))
        .unwrap()
        .backend_initialized(Ok(()))
        .unwrap()
}

fn buffer_size(surface: &mut GlutinSurface) -> RenderTarget {
    let size = surface.size();
    surface.back_buffer(size, Ok(())).unwrap()
}

#[test]
fn resize_with_unchanged_size_changes_nothing() {
    let mut surface = ready();
    let before = format!("{:?}", surface);
    assert_eq!(surface.resize(), Ok(()));
    assert_eq!(format!("{:?}", surface), before);
    assert_eq!(surface.resize(), Ok(()));
    assert_eq!(format!("{:?}", surface), before);
}

#[test]
fn resize_then_size_gives_the_new_dimensions() {
    let mut surface = ready();
    surface.window_resized(1024, 768);
    assert_eq!(surface.size(), [1024, 768]);
    assert!(format!("{:?}", surface).contains("width: 800, height: 600, back"));
    assert_eq!(surface.resize(), Ok(()));
    assert_eq!(surface.size(), [1024, 768]);
    assert!(format!("{:?}", surface).contains("width: 1024, height: 768, back"));
}

#[test]
fn resize_to_a_zero_dimension_is_refused() {
    let mut surface = ready();
    surface.window_resized(0, 768);
    let before = format!("{:?}", surface);
    assert_eq!(surface.resize(), Err(GlutinError::InvalidSurfaceSize));
    assert_eq!(format!("{:?}", surface), before);
    assert_eq!(surface.size(), [0, 768]);
    surface.window_resized(10, 0);
    assert_eq!(surface.resize(), Err(GlutinError::InvalidSurfaceSize));
    surface.window_resized(10, 20);
    assert_eq!(surface.resize(), Ok(()));
    assert!(format!("{:?}", surface).contains("width: 10, height: 20, back"));
}

#[test]
fn swap_buffers_rotates_on_success_only() {
    let mut surface = ready();
    assert_eq!(buffer_size(&mut surface).buffer, BufferSlot::First);
    assert_eq!(surface.swap_buffers(Ok(())), Ok(()));
    assert_eq!(buffer_size(&mut surface).buffer, BufferSlot::Second);
    assert_eq!(
        surface.swap_buffers(Err(cause(0x300D, "surface lost"))),
        Err(GlutinError::PresentError(cause(0x300D, "surface lost")))
    );
    assert_eq!(buffer_size(&mut surface).buffer, BufferSlot::Second);
    assert_eq!(surface.swap_buffers(Ok(())), Ok(()));
    assert_eq!(buffer_size(&mut surface).buffer, BufferSlot::First);
}

#[test]
fn back_buffer_has_the_given_size() {
    let mut surface = ready();
    assert_eq!(
        surface.back_buffer([800, 600], Ok(())),
        Ok(RenderTarget { width: 800, height: 600, buffer: BufferSlot::First })
    );
    assert_eq!(
        surface.back_buffer([1, 2], Err(cause(4, "size mismatch"))),
        Err(GlutinError::FramebufferError(cause(4, "size mismatch")))
    );
}

#[test]
fn swap_interval_zero_does_not_wait() {
    let mut surface = ready();
    assert_eq!(surface.present_wait(), None);
    assert_eq!(surface.set_swap_interval(PresentInterval::DontWait, Ok(())), Ok(()));
    assert_eq!(surface.present_wait(), Some(0));
    assert_eq!(surface.set_swap_interval(PresentInterval::Wait(2), Ok(())), Ok(()));
    assert_eq!(surface.present_wait(), Some(2));
    assert_eq!(
        surface.set_swap_interval(PresentInterval::DontWait, Err(cause(7, "unsupported"))),
        Err(GlutinError::SwapIntervalError(cause(7, "unsupported")))
    );
    assert_eq!(surface.present_wait(), Some(2));
}

#[test]
fn interval_from_blanks() {
    assert_eq!(PresentInterval::from_blanks(0), PresentInterval::DontWait);
    assert_eq!(PresentInterval::from_blanks(3), PresentInterval::Wait(3));
    assert_eq!(PresentInterval::Wait(3).blanks(), 3);
    assert_eq!(PresentInterval::DontWait.blanks(), 0);
    assert_eq!(BufferSlot::First.other(), BufferSlot::Second);
    assert_eq!(BufferSlot::Second.other(), BufferSlot::First);
}

#[test]
fn backend_is_lent_for_writing() {
    let mut surface = ready();
    surface.backend().bound_program = 9;
    surface.backend().bound_array_buffer = 4;
    assert_eq!(*surface.backend(), BackendState { context: 2, bound_program: 9, bound_array_buffer: 4 });
    assert_eq!(surface.size(), [800, 600]);
}

#[test]
fn window_model_accessors() {
    let mut window = Window { handle: 6, width: 1, height: 2, visible: false };
    assert_eq!(window.inner_size(), [1, 2]);
    assert_eq!(window.raw_handle(), 6);
    window.set_inner_size(30, 40);
    window.set_visible(true);
    assert_eq!(window, Window { handle: 6, width: 30, height: 40, visible: true });
}

#[test]
fn destroy_releases_the_window_last() {
    assert_eq!(ready().destroy(), vec![Resource::Surface, Resource::Context, Resource::Window]);
}

#[test]
fn error_headlines_and_causes() {
    let c = cause(1, "x");
    assert_eq!(GlutinError::NoWindowError.headline(), "Display builder did not return a window");
    assert_eq!(GlutinError::ContextError(c.clone()).headline(), "Glutin OpenGL context creation error");
    assert_eq!(GlutinError::CreateWindowError(c.clone()).headline(), "Window creation error");
    assert_eq!(
        GlutinError::GraphicsStateError(c.clone()).headline(),
        "OpenGL graphics state initialization error"
    );
    assert_eq!(GlutinError::NoWindowError.source(), None);
    assert_eq!(GlutinError::NoCompatibleConfig.source(), None);
    assert_eq!(GlutinError::InvalidSurfaceSize.source(), None);
    assert_eq!(GlutinError::CreateWindowError(c.clone()).source(), Some(&c));
    assert_eq!(GlutinError::ActivationError(c.clone()).source(), Some(&c));
    assert_eq!(GlutinError::SurfaceError(c.clone()).source(), Some(&c));
    assert_eq!(GlutinError::PresentError(c.clone()).source(), Some(&c));
    assert_eq!(GlutinError::FramebufferError(c.clone()).source(), Some(&c));
    assert_eq!(GlutinError::SwapIntervalError(c.clone()).source(), Some(&c));
    assert_eq!(GlutinError::GraphicsStateError(c.clone()).source(), Some(&c));
}

#[test]
fn init_backend_starts_with_nothing_bound() {
    let surface = ready();
    let ctx: ActiveContext = surface.ctx;
    assert_eq!(
        init_backend(&ctx, Ok(())),
        Ok(BackendState { context: 2, bound_program: 0, bound_array_buffer: 0 })
    );
    assert_eq!(
        init_backend(&ctx, Err(cause(5, "GL_ARB_x missing"))),
        Err(GlutinError::GraphicsStateError(cause(5, "GL_ARB_x missing")))
    );
}

#[test]
fn a_wait_of_no_blank_is_stored_as_dont_wait() {
    let mut surface = ready();
    assert_eq!(surface.set_swap_interval(PresentInterval::Wait(0), Ok(())), Ok(()));
    assert_eq!(surface.present_wait(), Some(0));
    assert!(format!("{:?}", surface).contains("interval: Some(DontWait)"));
    assert_eq!(surface.set_swap_interval(PresentInterval::Wait(3), Ok(())), Ok(()));
    assert!(format!("{:?}", surface).contains("interval: Some(Wait(3))"));
}

#[test]
fn a_fresh_surface_has_no_interval_set() {
    let surface = ready();
    assert_eq!(surface.present_wait(), None);
    assert!(format!("{:?}", surface).contains("interval: None"));
}

#[test]
fn error_messages_join_headline_and_cause() {
    let boom = Cause { kind: None, code: None, message: "boom".to_string() };
    assert_eq!(GlutinError::CreateWindowError(boom.clone()).message(), "Window creation error: boom");
    assert_eq!(
        GlutinError::ContextError(boom.clone()).message(),
        "Glutin OpenGL context creation error: boom"
    );
    assert_eq!(
        GlutinError::GraphicsStateError(boom.clone()).message(),
        "OpenGL graphics state initialization error: boom"
    );
    assert_eq!(GlutinError::PresentError(boom.clone()).message(), "Buffer swap error: boom");
    assert_eq!(GlutinError::NoWindowError.message(), "Display builder did not return a window");
    assert_eq!(GlutinError::NoCompatibleConfig.message(), "No compatible display configuration");
    assert_eq!(GlutinError::InvalidSurfaceSize.message(), "Window has a zero dimension");
    let empty = Cause { kind: None, code: None, message: String::new() };
    assert_eq!(GlutinError::SurfaceError(empty).message(), "Window surface creation error: ");
}
