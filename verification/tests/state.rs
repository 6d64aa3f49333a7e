use kwaymag::capture::GL_BGRA_EXT;
use kwaymag::render::Size;
use kwaymag::state::{
    AppError, AppState, CaptureState, DmaBufFrame, Frame, RenderPlan, RenderSource, ShmFrame,
    DEFAULT_WINDOW_H, DEFAULT_WINDOW_W, GL_RGBA,
};

fn shm_frame() -> ShmFrame {
    ShmFrame { data: vec![1, 2, 3, 4], width: 1, height: 1 }
}

fn dmabuf_frame() -> DmaBufFrame<i32> {
    DmaBufFrame {
        fd: 3,
        width: 64,
        height: 32,
        fourcc: 0x34325258,
        modifier: 0,
        offset: 0,
        stride: 256,
    }
}

#[test]
fn capture_starts_without_a_frame() {
    let cap: CaptureState<i32> = CaptureState::new();
    assert_eq!(cap.frame, None);
    assert_eq!((cap.width, cap.height, cap.modifier), (0, 0, 0));
    assert_eq!(cap.gl_format, gl::RGBA);
    assert_eq!(cap.fourcc, 0x34325258);
    assert!(!cap.frame_ready);
    assert_eq!(GL_RGBA, gl::RGBA);
    assert_eq!(GL_BGRA_EXT, gl::BGRA);
}

#[test]
fn the_app_starts_with_the_default_window() {
    let app = AppState::new();
    assert_eq!(app.window_size, Size { w: 400, h: 300 });
    assert_eq!((DEFAULT_WINDOW_W, DEFAULT_WINDOW_H), (400, 300));
    assert!(app.running);
    assert!(!app.window_configured && !app.drag_active && !app.egl_ctx && !app.surface);
    assert_eq!((app.ptr_x, app.ptr_y, app.drag_vx, app.drag_vy), (0, 0, 0, 0));
}

#[test]
fn a_window_takes_two_globals() {
    let mut app = AppState::new();
    assert_eq!(app.check_globals(), Err(AppError::NoCompositor));
    app.xdg_wm_base = true;
    assert_eq!(app.check_globals(), Err(AppError::NoCompositor));
    app.compositor = true;
    assert_eq!(app.check_globals(), Ok(()));
    app.xdg_wm_base = false;
    assert_eq!(app.check_globals(), Err(AppError::NoXdgWmBase));
}

#[test]
fn egl_takes_a_surface() {
    let mut app = AppState::new();
    assert_eq!(app.init_egl(), Err(AppError::NoSurface));
    app.window_created();
    assert!(app.surface && app.xdg_surface && app.xdg_toplevel);
    assert_eq!(app.init_egl(), Ok(Size { w: 400, h: 300 }));
    assert!(!app.egl_ctx);
    app.egl_initialised();
    assert!(app.egl_ctx && app.gl_res);
}

#[test]
fn drawing_takes_egl_and_gl() {
    let cap = CaptureState { frame: Some(Frame::DmaBuf(dmabuf_frame())), ..CaptureState::new() };
    let mut app = AppState::new();
    assert_eq!(app.render(&cap), Err(AppError::NoEglContext));
    app.gl_res = true;
    assert_eq!(app.render(&cap), Err(AppError::NoEglContext));
    app.egl_ctx = true;
    app.gl_res = false;
    assert_eq!(app.render(&cap), Err(AppError::NoGlResources));
}

#[test]
fn without_a_frame_nothing_is_drawn() {
    let cap: CaptureState<i32> = CaptureState::new();
    let mut app = AppState::new();
    app.egl_initialised();
    assert_eq!(app.render(&cap), Ok(None));
}

#[test]
fn shared_memory_is_uploaded() {
    let cap: CaptureState<i32> = CaptureState {
        frame: Some(Frame::Shm(shm_frame())),
        gl_format: GL_BGRA_EXT,
        ..CaptureState::new()
    };
    let mut app = AppState::new();
    app.egl_initialised();
    assert_eq!(
        app.render(&cap),
        Ok(Some(RenderPlan {
            source: RenderSource::Upload(&shm_frame(), GL_BGRA_EXT),
            buf_w: 1,
            buf_h: 1,
            window: Size { w: 400, h: 300 },
        }))
    );
}

#[test]
fn a_dmabuf_is_imported() {
    let cap = CaptureState { frame: Some(Frame::DmaBuf(dmabuf_frame())), ..CaptureState::new() };
    let mut app = AppState::new();
    app.egl_initialised();
    assert_eq!(
        app.render(&cap),
        Ok(Some(RenderPlan {
            source: RenderSource::Import(&dmabuf_frame()),
            buf_w: 64,
            buf_h: 32,
            window: Size { w: 400, h: 300 },
        }))
    );
}

#[test]
fn app_errors_in_words() {
    let cases = [
        (AppError::NoCompositor, "wl_compositor not available"),
        (AppError::NoXdgWmBase, "xdg_wm_base not available"),
        (AppError::NoSurface, "surface not created"),
        (AppError::NoEglContext, "no EGL context"),
        (AppError::NoGlResources, "no GL resources"),
    ];
    for (error, message) in cases {
        assert_eq!(error.message(), message);
    }
}

#[test]
fn a_frame_is_imported_as_it_was_captured() {
    let frame = DmaBufFrame {
        fd: 'f',
        width: 64,
        height: 32,
        fourcc: 0x3432_4241,
        modifier: 0x0200_0000_0000_0005,
        offset: 16,
        stride: 256,
    };
    assert_eq!(
        frame.image_attribs(3),
        vec![
            0x3057, 64, 0x3056, 32, 0x3271, 0x3432_4241, 0x3272, 3, 0x3273, 16, 0x3274, 256,
            0x3443, 5, 0x3444, 0x0200_0000, 0x3038,
        ]
    );
}
