# kwaymag

A Wayland screen magnifier. It captures a screen or a window through the desktop
portal and PipeWire and shows a magnified part of it in a window of its own: drag
with the left button to pan, scroll to zoom.

On first launch the desktop portal asks for a screen or window to capture. The
choice is kept as a restore token and reused on later runs. If the wrong screen
or window is captured, delete the token to be asked again:
`~/.local/share/kwaymag/restore_token`, or
`$XDG_DATA_HOME/kwaymag/restore_token` if `XDG_DATA_HOME` is set.

## Layout

- `src/` is the library, written in Verus: the decisions that the magnifier
  makes, all but zoom and pan, each with its contract and its proof. It holds no
  I/O and no floating point.
- `app/` is the program around it: the portal, Wayland, PipeWire, EGL, OpenGL and
  GBM calls, and the zoom and pan arithmetic, which is floating point.
- `tests/` runs the library on concrete values.

Pointer positions are whole numbers of 1/256 pixel, the precision in which the
Wayland protocol sends them.

No source file names the `wayland-backend` dependency. It is there for its
features: EGL needs the C display pointer, which there is only when the backend is
built on the system's `libwayland` (`client_system`), and that is loaded at run
time (`dlopen`).

## What is trusted

Two functions of other crates are called from the library, and what is claimed of
them stands above the wrappers in `src/buf.rs`: whether `drm_fourcc` knows a pixel
format, and whether the Wayland protocol lists a shared-memory format.
