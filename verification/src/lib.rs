//! The decisions of a Wayland screen magnifier, proved apart from the
//! compositor, PipeWire, EGL and OpenGL calls that carry them out.
//!
//! - [`portal`]: the screencast handshake, and where its restore token is kept;
//! - [`capture`]: what is offered to PipeWire, and what becomes of its buffers;
//! - [`buf`]: buffers of our own, in GPU memory and in shared memory;
//! - [`dispatch`]: what each Wayland event changes and is answered with;
//! - [`render`]: which pixels of a frame are shown, and where in the window;
//! - [`egl`]: EGL attribute lists and extensions;
//! - [`main_loop`]: the order of work in the main loop;
//! - [`state`]: what is remembered between events;
//! - [`text`]: comparing texts, and searching them.
pub mod buf;
pub mod capture;
pub mod dispatch;
pub mod egl;
pub mod main_loop;
pub mod portal;
pub mod render;
pub mod state;
pub mod text;
