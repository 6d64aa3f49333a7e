//! What the magnifier remembers between events.
use vstd::prelude::*;

use crate::egl::{dmabuf_attrib_list, dmabuf_attribs};
use crate::render::Size;

verus! {

pub const DEFAULT_WINDOW_W: i32 = 400;

pub const DEFAULT_WINDOW_H: i32 = 300;

/// OpenGL's RGBA pixel format.
pub const GL_RGBA: u32 = 0x1908;

pub const DRM_FORMAT_XRGB8888: u32 = 0x34325258;

/// A frame copied from shared memory.
#[derive(Debug, PartialEq, Eq)]
pub struct ShmFrame {
    pub data: Vec<u8>,
    pub width: u32,
    pub height: u32,
}

/// A frame in a DMA-BUF, held by the file descriptor `fd`.
#[derive(Debug, PartialEq, Eq)]
pub struct DmaBufFrame<F> {
    pub fd: F,
    pub width: u32,
    pub height: u32,
    pub fourcc: u32,
    pub modifier: u64,
    pub offset: u32,
    pub stride: u32,
}

impl<F> DmaBufFrame<F> {
    /// The attributes that import it as an EGL image; `fd` is the number of its
    /// file descriptor.
    pub fn image_attribs(&self, fd: i32) -> (attribs: Vec<usize>)
        ensures
            attribs@ == dmabuf_attrib_list(
                self.width,
                self.height,
                self.fourcc,
                fd,
                self.offset,
                self.stride,
                self.modifier,
            ),
    {
        dmabuf_attribs(
            self.width,
            self.height,
            self.fourcc,
            fd,
            self.offset,
            self.stride,
            self.modifier,
        )
    }
}

#[derive(Debug, PartialEq, Eq)]
pub enum Frame<F> {
    Shm(ShmFrame),
    DmaBuf(DmaBufFrame<F>),
}

impl<F> Frame<F> {
    pub open spec fn spec_width(&self) -> u32 {
        match self {
            Frame::Shm(frame) => frame.width,
            Frame::DmaBuf(frame) => frame.width,
        }
    }

    pub open spec fn spec_height(&self) -> u32 {
        match self {
            Frame::Shm(frame) => frame.height,
            Frame::DmaBuf(frame) => frame.height,
        }
    }
}

/// A frame is as wide and as high as it says itself, in memory and in a DMA-BUF
/// alike.
pub proof fn lemma_frame_size<F>(shm: ShmFrame, dmabuf: DmaBufFrame<F>)
    ensures
        Frame::<F>::Shm(shm).spec_width() == shm.width,
        Frame::<F>::Shm(shm).spec_height() == shm.height,
        Frame::DmaBuf(dmabuf).spec_width() == dmabuf.width,
        Frame::DmaBuf(dmabuf).spec_height() == dmabuf.height,
{
}

/// The negotiated format, and the last frame that came in it.
#[derive(Debug, PartialEq, Eq)]
pub struct CaptureState<F> {
    pub frame: Option<Frame<F>>,
    pub width: u32,
    pub height: u32,
    pub gl_format: u32,
    pub fourcc: u32,
    pub modifier: u64,
    /// The frame has not been shown yet.
    pub frame_ready: bool,
}

impl<F> CaptureState<F> {
    /// There is a frame whenever one is said to be ready, and no frame is empty.
    pub open spec fn wf(&self) -> bool {
        &&& self.frame_ready ==> self.frame is Some
        &&& self.frame matches Some(frame) ==> frame.spec_width() != 0 && frame.spec_height() != 0
    }

    /// Before any format is negotiated.
    pub fn new() -> (cap: Self)
        ensures
            cap.wf(),
            cap == (CaptureState::<F> {
                frame: None,
                width: 0,
                height: 0,
                gl_format: GL_RGBA,
                fourcc: DRM_FORMAT_XRGB8888,
                modifier: 0,
                frame_ready: false,
            }),
            cap.gl_format == 0x1908,
            cap.fourcc == 0x3432_5258,
    {
        CaptureState {
            frame: None,
            width: 0,
            height: 0,
            gl_format: GL_RGBA,
            fourcc: DRM_FORMAT_XRGB8888,
            modifier: 0,
            frame_ready: false,
        }
    }
}

/// Pointer coordinates are counted in steps of this fraction of a pixel, the
/// precision of Wayland's fixed-point numbers.
pub const STEPS_PER_PIXEL: i64 = 256;

/// Why the magnifier cannot start, or a picture cannot be drawn.
#[derive(Clone, Copy, Debug, PartialEq, Eq, Structural)]
pub enum AppError {
    NoCompositor,
    NoXdgWmBase,
    NoSurface,
    NoEglContext,
    NoGlResources,
}

impl AppError {
    pub open spec fn spec_message(self) -> Seq<char> {
        match self {
            AppError::NoCompositor => "wl_compositor not available"@,
            AppError::NoXdgWmBase => "xdg_wm_base not available"@,
            AppError::NoSurface => "surface not created"@,
            AppError::NoEglContext => "no EGL context"@,
            AppError::NoGlResources => "no GL resources"@,
        }
    }

    /// The error in words.
    pub fn message(self) -> (text: &'static str)
        ensures
            text@ == self.spec_message(),
            self is NoCompositor ==> text@ == "wl_compositor not available"@,
            self is NoXdgWmBase ==> text@ == "xdg_wm_base not available"@,
            self is NoSurface ==> text@ == "surface not created"@,
            self is NoEglContext ==> text@ == "no EGL context"@,
            self is NoGlResources ==> text@ == "no GL resources"@,
    {
        match self {
            AppError::NoCompositor => "wl_compositor not available",
            AppError::NoXdgWmBase => "xdg_wm_base not available",
            AppError::NoSurface => "surface not created",
            AppError::NoEglContext => "no EGL context",
            AppError::NoGlResources => "no GL resources",
        }
    }
}

/// The window, the pointer and the drag. The Wayland, EGL and OpenGL objects
/// themselves live with the caller; of each, this knows whether it is there.
#[derive(Clone, Copy, Debug, PartialEq, Eq, Structural)]
pub struct AppState {
    pub compositor: bool,
    pub xdg_wm_base: bool,
    pub seat: bool,
    pub decoration_mgr: bool,
    pub surface: bool,
    pub xdg_surface: bool,
    pub xdg_toplevel: bool,
    pub window_size: Size,
    pub window_configured: bool,
    pub pointer: bool,
    pub pointer_constraints: bool,
    pub relative_pointer_mgr: bool,
    pub locked_pointer: bool,
    pub relative_pointer: bool,
    /// The left button is held down.
    pub drag_active: bool,
    /// The pointer's position on the surface, in steps.
    pub ptr_x: i32,
    pub ptr_y: i32,
    /// The virtual cursor's position during a drag, in steps; it wraps round at
    /// the window's edges.
    pub drag_vx: i64,
    pub drag_vy: i64,
    pub egl_ctx: bool,
    pub gl_res: bool,
    pub running: bool,
}

/// Where the pixels of the next picture come from.
#[derive(Debug, PartialEq, Eq)]
pub enum RenderSource<'a, F> {
    /// They are uploaded from memory, in the OpenGL format given.
    Upload(&'a ShmFrame, u32),
    /// They are imported from a DMA-BUF.
    Import(&'a DmaBufFrame<F>),
}

/// A picture to be drawn.
#[derive(Debug, PartialEq, Eq)]
pub struct RenderPlan<'a, F> {
    pub source: RenderSource<'a, F>,
    /// The size of the frame.
    pub buf_w: u32,
    pub buf_h: u32,
    /// The size of the window.
    pub window: Size,
}

/// A picture is the last frame, whole, in the window as it is now.
pub open spec fn is_plan<F>(app: AppState, cap: CaptureState<F>, plan: RenderPlan<F>) -> bool {
    &&& cap.frame is Some
    &&& plan.window == app.window_size
    &&& plan.buf_w == cap.frame->0.spec_width()
    &&& plan.buf_h == cap.frame->0.spec_height()
    &&& match cap.frame->0 {
        Frame::Shm(frame) => plan.source == RenderSource::<F>::Upload(&frame, cap.gl_format),
        Frame::DmaBuf(frame) => plan.source == RenderSource::Import(&frame),
    }
}

/// A picture has the width and the height of the frame that it shows, and of no
/// other; and two pictures of one capture differ at most in the window.
pub proof fn lemma_plan_has_the_size_of_the_frame<F>(
    app: AppState,
    cap: CaptureState<F>,
    plan: RenderPlan<F>,
    other_app: AppState,
    other: RenderPlan<F>,
)
    requires
        is_plan(app, cap, plan),
        is_plan(other_app, cap, other),
    ensures
        cap.frame matches Some(Frame::Shm(frame)) ==> {
            &&& plan.buf_w == frame.width
            &&& plan.buf_h == frame.height
            &&& plan.source == RenderSource::<F>::Upload(&frame, cap.gl_format)
        },
        cap.frame matches Some(Frame::DmaBuf(frame)) ==> {
            &&& plan.buf_w == frame.width
            &&& plan.buf_h == frame.height
            &&& plan.source == RenderSource::Import(&frame)
        },
        plan.window == app.window_size,
        plan == (RenderPlan { window: plan.window, ..other }),
{
}

/// Locking the pointer takes the pointer, a surface and the constraints; to
/// follow it takes the relative pointer's manager as well.
pub proof fn lemma_what_a_lock_takes(app: AppState)
    ensures
        app.can_lock() <==> app.pointer && app.surface && app.pointer_constraints,
        app.can_grab() <==> app.pointer && app.surface && app.pointer_constraints
            && app.relative_pointer_mgr,
{
}

impl AppState {
    /// The window is never empty; EGL and OpenGL come together, on a surface;
    /// the pointer is locked and its relative motion followed only during a
    /// drag, and only with the objects that this takes.
    pub open spec fn wf(&self) -> bool {
        &&& self.window_size.w > 0
        &&& self.window_size.h > 0
        &&& self.egl_ctx == self.gl_res
        &&& self.egl_ctx ==> self.surface
        &&& self.locked_pointer ==> self.drag_active && self.can_lock()
        &&& self.relative_pointer ==> self.drag_active && self.pointer && self.relative_pointer_mgr
    }

    /// All that locking the pointer takes is there.
    pub open spec fn can_lock(&self) -> bool {
        self.pointer_constraints && self.surface && self.pointer
    }

    /// At the start: no objects, a window of the default size, and running.
    pub fn new() -> (app: Self)
        ensures
            app.wf(),
            app == (AppState {
                compositor: false,
                xdg_wm_base: false,
                seat: false,
                decoration_mgr: false,
                surface: false,
                xdg_surface: false,
                xdg_toplevel: false,
                window_size: Size { w: DEFAULT_WINDOW_W, h: DEFAULT_WINDOW_H },
                window_configured: false,
                pointer: false,
                pointer_constraints: false,
                relative_pointer_mgr: false,
                locked_pointer: false,
                relative_pointer: false,
                drag_active: false,
                ptr_x: 0,
                ptr_y: 0,
                drag_vx: 0,
                drag_vy: 0,
                egl_ctx: false,
                gl_res: false,
                running: true,
            }),
            app.window_size.w == 400,
            app.window_size.h == 300,
    {
        AppState {
            compositor: false,
            xdg_wm_base: false,
            seat: false,
            decoration_mgr: false,
            surface: false,
            xdg_surface: false,
            xdg_toplevel: false,
            window_size: Size { w: DEFAULT_WINDOW_W, h: DEFAULT_WINDOW_H },
            window_configured: false,
            pointer: false,
            pointer_constraints: false,
            relative_pointer_mgr: false,
            locked_pointer: false,
            relative_pointer: false,
            drag_active: false,
            ptr_x: 0,
            ptr_y: 0,
            drag_vx: 0,
            drag_vy: 0,
            egl_ctx: false,
            gl_res: false,
            running: true,
        }
    }

    /// Whether the compositor has what a window takes. The compositor itself is
    /// asked for first.
    pub fn check_globals(&self) -> (checked: Result<(), AppError>)
        ensures
            checked is Ok <==> self.compositor && self.xdg_wm_base,
            checked == Err::<(), AppError>(AppError::NoCompositor) <==> !self.compositor,
            checked == Err::<(), AppError>(AppError::NoXdgWmBase) <==> self.compositor
                && !self.xdg_wm_base,
    {
        if !self.compositor {
            Err(AppError::NoCompositor)
        } else if !self.xdg_wm_base {
            Err(AppError::NoXdgWmBase)
        } else {
            Ok(())
        }
    }

    /// Notes that the window's surface and its two roles have been made.
    pub fn window_created(&mut self)
        ensures
            *final(self) == (AppState {
                surface: true,
                xdg_surface: true,
                xdg_toplevel: true,
                ..*old(self)
            }),
            old(self).wf() ==> final(self).wf(),
    {
        self.surface = true;
        self.xdg_surface = true;
        self.xdg_toplevel = true;
    }

    /// The size of the EGL window to make. It takes a surface.
    pub fn init_egl(&self) -> (size: Result<Size, AppError>)
        ensures
            size == if self.surface {
                Ok::<Size, AppError>(self.window_size)
            } else {
                Err(AppError::NoSurface)
            },
    {
        if self.surface {
            Ok(self.window_size)
        } else {
            Err(AppError::NoSurface)
        }
    }

    /// Notes that the EGL context and the OpenGL objects have been made.
    pub fn egl_initialised(&mut self)
        ensures
            *final(self) == (AppState { egl_ctx: true, gl_res: true, ..*old(self) }),
            old(self).wf() && old(self).surface ==> final(self).wf(),
    {
        self.egl_ctx = true;
        self.gl_res = true;
    }

    /// What to draw: the last frame, or nothing if none has come yet. It takes an
    /// EGL context and the OpenGL objects; the context is asked for first.
    pub fn render<'a, F>(&self, cap: &'a CaptureState<F>) -> (plan: Result<
        Option<RenderPlan<'a, F>>,
        AppError,
    >)
        ensures
            plan is Ok <==> self.egl_ctx && self.gl_res,
            plan matches Err(e) ==> e == if !self.egl_ctx {
                AppError::NoEglContext
            } else {
                AppError::NoGlResources
            },
            plan matches Ok(picture) ==> {
                &&& picture is Some <==> cap.frame is Some
                &&& picture matches Some(p) ==> is_plan(*self, *cap, p)
                &&& picture matches Some(p) ==> {
                    &&& cap.frame matches Some(Frame::Shm(frame)) ==> p.buf_w == frame.width
                        && p.buf_h == frame.height
                    &&& cap.frame matches Some(Frame::DmaBuf(frame)) ==> p.buf_w == frame.width
                        && p.buf_h == frame.height
                }
                &&& picture matches Some(p) ==> {
                    &&& p.window == self.window_size
                    &&& p.buf_w == cap.frame->0.spec_width()
                    &&& p.buf_h == cap.frame->0.spec_height()
                    &&& match cap.frame->0 {
                        Frame::Shm(frame) => p.source == RenderSource::<F>::Upload(
                            &frame,
                            cap.gl_format,
                        ),
                        Frame::DmaBuf(frame) => p.source == RenderSource::Import(&frame),
                    }
                }
            },
    {
        if !self.egl_ctx {
            return Err(AppError::NoEglContext);
        }
        if !self.gl_res {
            return Err(AppError::NoGlResources);
        }
        match &cap.frame {
            Some(Frame::Shm(frame)) => Ok(
                Some(
                    RenderPlan {
                        source: RenderSource::Upload(frame, cap.gl_format),
                        buf_w: frame.width,
                        buf_h: frame.height,
                        window: self.window_size,
                    },
                ),
            ),
            Some(Frame::DmaBuf(frame)) => Ok(
                Some(
                    RenderPlan {
                        source: RenderSource::Import(frame),
                        buf_w: frame.width,
                        buf_h: frame.height,
                        window: self.window_size,
                    },
                ),
            ),
            None => Ok(None),
        }
    }
}

} // verus!
