//! What each Wayland event changes, and what is to be asked of the compositor
//! in answer.
use vstd::prelude::*;

use crate::render::Size;
use crate::state::{AppState, STEPS_PER_PIXEL};
use crate::text::same_text;

verus! {

/// The left mouse button, as the kernel numbers it.
pub const BTN_LEFT: u32 = 272;

/// The bit of a seat's capabilities that says it has a pointer.
pub const SEAT_CAPABILITY_POINTER: u32 = 1;

/// A margin of one pixel is left at the window's edges, so that the wrapped
/// position is clearly inside the window.
pub const MARGIN: i64 = STEPS_PER_PIXEL;

/// The globals that the magnifier binds.
#[derive(Clone, Copy, Debug, PartialEq, Eq, Structural)]
pub enum Global {
    Compositor,
    XdgWmBase,
    Seat,
    DecorationManager,
    PointerConstraints,
    RelativePointerManager,
}

impl Global {
    /// The name of its interface.
    pub open spec fn interface(self) -> Seq<char> {
        match self {
            Global::Compositor => "wl_compositor"@,
            Global::XdgWmBase => "xdg_wm_base"@,
            Global::Seat => "wl_seat"@,
            Global::DecorationManager => "zxdg_decoration_manager_v1"@,
            Global::PointerConstraints => "zwp_pointer_constraints_v1"@,
            Global::RelativePointerManager => "zwp_relative_pointer_manager_v1"@,
        }
    }

    /// The highest version of it that is understood.
    pub open spec fn spec_max_version(self) -> u32 {
        match self {
            Global::Compositor => 6,
            Global::XdgWmBase => 5,
            Global::Seat => 8,
            Global::DecorationManager => 1,
            Global::PointerConstraints => 1,
            Global::RelativePointerManager => 1,
        }
    }

    fn max_version(self) -> (version: u32)
        ensures
            version == self.spec_max_version(),
    {
        match self {
            Global::Compositor => 6,
            Global::XdgWmBase => 5,
            Global::Seat => 8,
            Global::DecorationManager => 1,
            Global::PointerConstraints => 1,
            Global::RelativePointerManager => 1,
        }
    }
}

/// No two globals have the same interface.
pub proof fn lemma_interfaces_differ(a: Global, b: Global)
    requires
        a.interface() == b.interface(),
    ensures
        a == b,
{
    reveal_strlit("wl_compositor");
    reveal_strlit("xdg_wm_base");
    reveal_strlit("wl_seat");
    reveal_strlit("zxdg_decoration_manager_v1");
    reveal_strlit("zwp_pointer_constraints_v1");
    reveal_strlit("zwp_relative_pointer_manager_v1");
    assert("wl_compositor"@.len() == 13);
    assert("xdg_wm_base"@.len() == 11);
    assert("wl_seat"@.len() == 7);
    assert("zxdg_decoration_manager_v1"@.len() == 26);
    assert("zwp_pointer_constraints_v1"@.len() == 26);
    assert("zwp_relative_pointer_manager_v1"@.len() == 31);
    assert("zxdg_decoration_manager_v1"@[1] != "zwp_pointer_constraints_v1"@[1]);
}

/// The globals by the names that compositors announce them under, and the highest
/// version of each that is bound.
pub proof fn lemma_globals_by_name(g: Global)
    ensures
        g is Compositor ==> g.interface() == "wl_compositor"@ && g.spec_max_version() == 6,
        g is XdgWmBase ==> g.interface() == "xdg_wm_base"@ && g.spec_max_version() == 5,
        g is Seat ==> g.interface() == "wl_seat"@ && g.spec_max_version() == 8,
        g is DecorationManager ==> g.interface() == "zxdg_decoration_manager_v1"@
            && g.spec_max_version() == 1,
        g is PointerConstraints ==> g.interface() == "zwp_pointer_constraints_v1"@
            && g.spec_max_version() == 1,
        g is RelativePointerManager ==> g.interface() == "zwp_relative_pointer_manager_v1"@
            && g.spec_max_version() == 1,
{
}

/// The global of an interface, if it is one that is bound.
fn global_of(interface: &str) -> (global: Option<Global>)
    ensures
        global matches Some(g) ==> g.interface() == interface@,
        global is None ==> forall|g: Global| #[trigger] g.interface() != interface@,
{
    if same_text(interface, "wl_compositor") {
        Some(Global::Compositor)
    } else if same_text(interface, "xdg_wm_base") {
        Some(Global::XdgWmBase)
    } else if same_text(interface, "wl_seat") {
        Some(Global::Seat)
    } else if same_text(interface, "zxdg_decoration_manager_v1") {
        Some(Global::DecorationManager)
    } else if same_text(interface, "zwp_pointer_constraints_v1") {
        Some(Global::PointerConstraints)
    } else if same_text(interface, "zwp_relative_pointer_manager_v1") {
        Some(Global::RelativePointerManager)
    } else {
        None
    }
}

/// A global to be bound, at the version given.
#[derive(Clone, Copy, Debug, PartialEq, Eq, Structural)]
pub struct Binding {
    pub global: Global,
    pub version: u32,
}

/// An event of the toplevel.
#[derive(Clone, Copy, Debug, PartialEq, Eq, Structural)]
pub enum ToplevelEvent {
    Configure { width: i32, height: i32 },
    Close,
    Other,
}

/// The state of a button.
#[derive(Clone, Copy, Debug, PartialEq, Eq, Structural)]
pub enum ButtonState {
    Released,
    Pressed,
    Unknown,
}

/// A scroll axis.
#[derive(Clone, Copy, Debug, PartialEq, Eq, Structural)]
pub enum Axis {
    VerticalScroll,
    HorizontalScroll,
    Unknown,
}

/// An event of the pointer. Coordinates and scroll distances are in steps.
#[derive(Clone, Copy, Debug, PartialEq, Eq, Structural)]
pub enum PointerEvent {
    Button { button: u32, state: ButtonState },
    Motion { x: i32, y: i32 },
    Axis { axis: Axis, value: i32 },
    Other,
}

/// What a pointer event is answered with.
#[derive(Clone, Copy, Debug, PartialEq, Eq, Structural)]
pub enum PointerAction {
    Nothing,
    /// Lock the pointer for as long as it is held, and follow its relative
    /// motion.
    Grab,
    /// Destroy the lock and the relative pointer, each if it is there.
    Release { unlock: bool, unfollow: bool },
    /// Change the zoom by a scroll distance; up is negative and zooms in.
    Zoom { value: i32 },
}

/// Take the cursor to another place by a new lock.
#[derive(Clone, Copy, Debug, PartialEq, Eq)]
pub struct Warp {
    /// Give the present lock this position as a hint and destroy it, so that the
    /// compositor moves the cursor there.
    pub hint: Option<(i64, i64)>,
    /// Lock the pointer again, where it now is.
    pub relock: bool,
}

/// One pixel in from the far edge of a window that is `len` pixels long.
pub open spec fn far_margin(len: int) -> int {
    len * STEPS_PER_PIXEL - MARGIN
}

/// The virtual cursor is in the margin, or outside the window.
pub open spec fn leaves(v: int, len: int) -> bool {
    v < MARGIN || v > far_margin(len)
}

/// Where the virtual cursor is taken: to the other side of the window.
pub open spec fn wrapped(v: int, len: int) -> int {
    if v < MARGIN {
        v + (far_margin(len) - MARGIN)
    } else if v > far_margin(len) {
        v - (far_margin(len) - MARGIN)
    } else {
        v
    }
}

/// A position as far as 64 bits can say it.
pub open spec fn saturated(v: int) -> int {
    if v < i64::MIN {
        i64::MIN as int
    } else if v > i64::MAX {
        i64::MAX as int
    } else {
        v
    }
}

/// Moves the virtual cursor by `d` and wraps it; also tells whether it left the
/// window.
fn move_and_wrap(v: i64, d: i32, len: i32) -> (at: (i64, bool))
    ensures
        at.0 == saturated(wrapped(v + d, len as int)),
        at.1 == leaves(v + d, len as int),
        at.1 <==> v + d < 256 || v + d > (len - 1) * 256,
        !at.1 ==> at.0 == v + d,
{
    let margin: i128 = MARGIN as i128;
    let far: i128 = len as i128 * STEPS_PER_PIXEL as i128 - margin;
    let moved: i128 = v as i128 + d as i128;
    let (at, left): (i128, bool) = if moved < margin {
        (moved + (far - margin), true)
    } else if moved > far {
        (moved - (far - margin), true)
    } else {
        (moved, false)
    };
    let at: i64 = if at < i64::MIN as i128 {
        i64::MIN
    } else if at > i64::MAX as i128 {
        i64::MAX
    } else {
        at as i64
    };
    (at, left)
}

/// In a window of at least two pixels, motion by no more than the width between
/// the margins takes a virtual cursor that is between them to a place between
/// them: it has not moved off the window for longer than one event.
pub proof fn lemma_cursor_stays_inside(v: int, d: int, len: int)
    requires
        2 <= len <= i32::MAX,
        !leaves(v, len),
        -(far_margin(len) - MARGIN) <= d <= far_margin(len) - MARGIN,
    ensures
        !leaves(saturated(wrapped(v + d, len)), len),
{
}

/// Wrapping moves the virtual cursor by the width between the margins, to the
/// one side or the other, or not at all; and not at all just where it does not
/// leave the window.
pub proof fn lemma_wrap_is_one_width(v: int, len: int)
    ensures
        wrapped(v, len) - v == 0 || wrapped(v, len) - v == far_margin(len) - MARGIN || wrapped(
            v,
            len,
        ) - v == -(far_margin(len) - MARGIN),
        !leaves(v, len) ==> wrapped(v, len) == v,
        leaves(v, len) && len != 2 ==> wrapped(v, len) != v,
{
}

/// In steps of 1/256 pixel: a virtual cursor from one pixel inside the near edge
/// to one pixel inside the far edge stays where it is. Anywhere else it is moved
/// towards the other edge, by the length of the window less two pixels.
pub proof fn lemma_wrap_in_steps(v: int, len: int)
    ensures
        leaves(v, len) <==> v < 256 || v > (len - 1) * 256,
        256 <= v <= (len - 1) * 256 ==> wrapped(v, len) == v,
        v < 256 ==> wrapped(v, len) - v == (len - 2) * 256,
        v >= 256 && v > (len - 1) * 256 ==> v - wrapped(v, len) == (len - 2) * 256,
{
}

/// The limits of 64 bits change no position inside them, and are where all
/// positions outside them end up.
pub proof fn lemma_saturated(v: int)
    ensures
        i64::MIN <= v <= i64::MAX ==> saturated(v) == v,
        v < i64::MIN ==> saturated(v) == i64::MIN,
        v > i64::MAX ==> saturated(v) == i64::MAX,
{
}

/// While the virtual cursor stays between the margins, two motions come to the
/// same as their sum, and motion that is undone brings it back.
pub proof fn lemma_motions_add_up(v: int, d1: int, d2: int, len: int)
    requires
        len <= i32::MAX,
        256 <= v + d1 <= (len - 1) * 256,
        256 <= v + d1 + d2 <= (len - 1) * 256,
    ensures
        saturated(wrapped(saturated(wrapped(v + d1, len)) + d2, len)) == v + d1 + d2,
        d2 == -d1 ==> saturated(wrapped(saturated(wrapped(v + d1, len)) + d2, len)) == v,
{
}

/// A cursor that runs over one edge of a window by less than the length between
/// the margins comes out as far behind the other edge's margin.
pub proof fn lemma_comes_out_on_the_other_side(len: int, over: int)
    requires
        2 < len <= i32::MAX,
        0 < over <= (len - 2) * 256,
    ensures
        saturated(wrapped((len - 1) * 256 + over, len)) == 256 + over,
        saturated(wrapped(256 - over, len)) == (len - 1) * 256 - over,
{
}

/// Motion takes the cursor off the window if it does so on either axis, each of
/// them measured by its own side of the window.
pub proof fn lemma_motion_leaves(app: AppState, dx: int, dy: int)
    ensures
        app.motion_leaves(dx, dy) <==> !(256 <= app.drag_vx + dx <= (app.window_size.w - 1) * 256
            && 256 <= app.drag_vy + dy <= (app.window_size.h - 1) * 256),
{
}

/// Motion that ends at least one pixel inside the window on both axes moves the
/// virtual cursor by just that, and nothing else happens.
pub proof fn lemma_motion_inside_the_window(
    app: AppState,
    dx: int,
    dy: int,
    post: AppState,
    warp: Option<Warp>,
)
    requires
        256 <= app.drag_vx + dx <= (app.window_size.w - 1) * 256,
        256 <= app.drag_vy + dy <= (app.window_size.h - 1) * 256,
        app.motion_step(dx, dy, post, warp),
    ensures
        warp is None,
        post.drag_vx == app.drag_vx + dx,
        post.drag_vy == app.drag_vy + dy,
        post == (AppState { drag_vx: post.drag_vx, drag_vy: post.drag_vy, ..app }),
{
}

/// During a drag, motion over the left or the right edge takes the cursor that
/// much in from the other edge, at the height that it had come to: that is the
/// hint, and the pointer is locked again. Above and below it is the same.
pub proof fn lemma_motion_over_an_edge(
    app: AppState,
    dx: int,
    dy: int,
    post: AppState,
    warp: Option<Warp>,
)
    requires
        app.wf(),
        app.locked_pointer,
        app.motion_step(dx, dy, post, warp),
    ensures
        app.pointer && app.surface && app.pointer_constraints,
        256 <= app.drag_vy + dy <= (app.window_size.h - 1) * 256 ==> {
            let right: int = app.drag_vx + dx - app.window_size.w * 256;
            &&& -256 < right < app.window_size.w * 256 && app.drag_vx + dx >= 256 ==> post.drag_vx
                == 512 + right && warp is Some
            &&& -app.window_size.w * 256 < app.drag_vx + dx < 256 ==> post.drag_vx == (
            app.window_size.w - 2) * 256 + app.drag_vx + dx && warp is Some
            &&& post.drag_vy == app.drag_vy + dy
        },
        256 <= app.drag_vx + dx <= (app.window_size.w - 1) * 256 ==> {
            let below: int = app.drag_vy + dy - app.window_size.h * 256;
            &&& -256 < below < app.window_size.h * 256 && app.drag_vy + dy >= 256 ==> post.drag_vy
                == 512 + below && warp is Some
            &&& -app.window_size.h * 256 < app.drag_vy + dy < 256 ==> post.drag_vy == (
            app.window_size.h - 2) * 256 + app.drag_vy + dy && warp is Some
            &&& post.drag_vx == app.drag_vx + dx
        },
        warp is Some ==> warp == Some(
            Warp { hint: Some((post.drag_vx, post.drag_vy)), relock: true },
        ),
        post == (AppState { drag_vx: post.drag_vx, drag_vy: post.drag_vy, ..app }),
{
}

/// Binding a global notes that one and forgets none, and changes nothing else.
pub proof fn lemma_binding_notes_one_global(app: AppState, g: Global)
    ensures
        app.with_global(g) == (AppState {
            compositor: app.compositor || g == Global::Compositor,
            xdg_wm_base: app.xdg_wm_base || g == Global::XdgWmBase,
            seat: app.seat || g == Global::Seat,
            decoration_mgr: app.decoration_mgr || g == Global::DecorationManager,
            pointer_constraints: app.pointer_constraints || g == Global::PointerConstraints,
            relative_pointer_mgr: app.relative_pointer_mgr || g == Global::RelativePointerManager,
            ..app
        }),
{
}

/// A size with both sides above zero is the window's from then on, whatever it was
/// before, and the EGL window follows if there is one; a size with either side
/// left open changes nothing.
pub proof fn lemma_window_takes_the_size(
    app: AppState,
    width: i32,
    height: i32,
    post: AppState,
    resize: Option<Size>,
)
    requires
        app.toplevel_step(ToplevelEvent::Configure { width, height }, post, resize),
    ensures
        width > 0 && height > 0 ==> {
            &&& post.window_size.w == width
            &&& post.window_size.h == height
            &&& resize == if app.egl_ctx {
                Some(post.window_size)
            } else {
                None
            }
        },
        width <= 0 || height <= 0 ==> post == app && resize is None,
        post == (AppState { window_size: post.window_size, ..app }),
{
}

/// A window that is closed stays closed, and only closing it stops the magnifier.
pub proof fn lemma_only_closing_stops(
    app: AppState,
    event: ToplevelEvent,
    post: AppState,
    resize: Option<Size>,
)
    requires
        app.toplevel_step(event, post, resize),
    ensures
        post.running <==> app.running && event !is Close,
        event !is Configure ==> post.window_size == app.window_size && resize is None,
{
}

/// A pointer is got the first time that the seat says it has one, and never a
/// second time; unless the lowest bit is set, it has none.
pub proof fn lemma_pointer_is_got_once(
    app: AppState,
    first: Option<u32>,
    between: AppState,
    got: bool,
    second: Option<u32>,
    after: AppState,
    again: bool,
)
    requires
        app.seat_step(first, between, got),
        between.seat_step(second, after, again),
    ensures
        !(got && again),
        !app.pointer && first is Some && first->0 % 2 == 1 ==> got,
        first is None || first->0 % 2 == 0 ==> !got,
        between == (AppState { pointer: app.pointer || got, ..app }),
        after.pointer <==> app.pointer || got || again,
{
}

/// Every vertical scroll zooms by the distance that was scrolled, up and down
/// alike; no other scroll does; and scrolling changes nothing else.
pub proof fn lemma_scroll_zooms(
    app: AppState,
    axis: Axis,
    value: i32,
    post: AppState,
    action: PointerAction,
)
    requires
        app.pointer_step(PointerEvent::Axis { axis, value }, post, action),
    ensures
        axis is VerticalScroll ==> action == (PointerAction::Zoom { value }),
        axis !is VerticalScroll ==> action == PointerAction::Nothing,
        post == app,
{
}

/// A drag starts where the pointer was last seen. It is followed if the pointer,
/// the surface and both managers are there, and else only noted.
pub proof fn lemma_drag_starts_at_the_pointer(
    app: AppState,
    x: i32,
    y: i32,
    seen: AppState,
    moved: PointerAction,
    dragging: AppState,
    grabbed: PointerAction,
)
    requires
        app.pointer_step(PointerEvent::Motion { x, y }, seen, moved),
        seen.pointer_step(
            PointerEvent::Button { button: 272, state: ButtonState::Pressed },
            dragging,
            grabbed,
        ),
    ensures
        moved == PointerAction::Nothing,
        seen == (AppState { ptr_x: x, ptr_y: y, ..app }),
        app.pointer_constraints && app.relative_pointer_mgr && app.surface && app.pointer
            ==> grabbed == PointerAction::Grab,
        !(app.pointer_constraints && app.relative_pointer_mgr && app.surface && app.pointer)
            ==> grabbed == PointerAction::Nothing,
        dragging == (AppState {
            drag_active: true,
            drag_vx: x as i64,
            drag_vy: y as i64,
            locked_pointer: app.locked_pointer || grabbed is Grab,
            relative_pointer: app.relative_pointer || grabbed is Grab,
            ..seen
        }),
{
}

/// Whenever the left button is not reported pressed, the drag is over, and each
/// object that it held is given up.
pub proof fn lemma_release_ends_the_drag(
    app: AppState,
    state: ButtonState,
    post: AppState,
    action: PointerAction,
)
    requires
        state !is Pressed,
        app.pointer_step(PointerEvent::Button { button: 272, state }, post, action),
    ensures
        action == (PointerAction::Release {
            unlock: app.locked_pointer,
            unfollow: app.relative_pointer,
        }),
        post == (AppState {
            drag_active: false,
            locked_pointer: false,
            relative_pointer: false,
            ..app
        }),
{
}

/// Other buttons, and events that are not known, are passed over.
pub proof fn lemma_other_events_are_passed_over(
    app: AppState,
    event: PointerEvent,
    post: AppState,
    action: PointerAction,
)
    requires
        event is Other || (event matches PointerEvent::Button { button, state } && button != 272),
        app.pointer_step(event, post, action),
    ensures
        action == PointerAction::Nothing,
        post == app,
{
}

/// What pressing the left button takes hold of, letting it go gives back; all
/// else but the virtual cursor is then as it was before the drag.
pub proof fn lemma_release_undoes_grab(
    idle: AppState,
    dragging: AppState,
    grabbed: PointerAction,
    after: AppState,
    released: PointerAction,
)
    requires
        idle.wf(),
        !idle.drag_active,
        idle.pointer_step(
            PointerEvent::Button { button: BTN_LEFT, state: ButtonState::Pressed },
            dragging,
            grabbed,
        ),
        dragging.pointer_step(
            PointerEvent::Button { button: BTN_LEFT, state: ButtonState::Released },
            after,
            released,
        ),
    ensures
        released == (PointerAction::Release {
            unlock: grabbed is Grab,
            unfollow: grabbed is Grab,
        }),
        after == (AppState { drag_vx: after.drag_vx, drag_vy: after.drag_vy, ..idle }),
{
}

impl AppState {
    /// The state once `global` is bound.
    pub open spec fn with_global(self, global: Global) -> AppState {
        match global {
            Global::Compositor => AppState { compositor: true, ..self },
            Global::XdgWmBase => AppState { xdg_wm_base: true, ..self },
            Global::Seat => AppState { seat: true, ..self },
            Global::DecorationManager => AppState { decoration_mgr: true, ..self },
            Global::PointerConstraints => AppState { pointer_constraints: true, ..self },
            Global::RelativePointerManager => AppState { relative_pointer_mgr: true, ..self },
        }
    }

    /// A global is announced: the ones that are needed are bound, at the highest
    /// version that both sides understand; all others are passed over.
    pub fn registry_global(&mut self, interface: &str, version: u32) -> (binding: Option<Binding>)
        ensures
            binding is Some <==> exists|g: Global| #[trigger] g.interface() == interface@,
            forall|g: Global| #[trigger]
                g.interface() == interface@ ==> binding is Some && binding->0.global == g,
            binding matches Some(b) ==> {
                &&& b.global.interface() == interface@
                &&& b.version == if version < b.global.spec_max_version() {
                    version
                } else {
                    b.global.spec_max_version()
                }
                &&& *final(self) == old(self).with_global(b.global)
                &&& b.version <= version
                &&& b.global is Compositor ==> b.version == if version < 6 { version } else { 6 }
                &&& b.global is XdgWmBase ==> b.version == if version < 5 { version } else { 5 }
                &&& b.global is Seat ==> b.version == if version < 8 { version } else { 8 }
                &&& b.global !is Compositor && b.global !is XdgWmBase && b.global !is Seat
                    ==> b.version == if version < 1 { version } else { 1 }
            },
            binding is None ==> *final(self) == *old(self),
            old(self).wf() ==> final(self).wf(),
    {
        match global_of(interface) {
            Some(global) => {
                proof {
                    assert forall|g: Global| #[trigger] g.interface() == interface@ implies g
                        == global by {
                        lemma_interfaces_differ(g, global);
                    }
                }
                *self = match global {
                    Global::Compositor => AppState { compositor: true, ..*self },
                    Global::XdgWmBase => AppState { xdg_wm_base: true, ..*self },
                    Global::Seat => AppState { seat: true, ..*self },
                    Global::DecorationManager => AppState { decoration_mgr: true, ..*self },
                    Global::PointerConstraints => AppState { pointer_constraints: true, ..*self },
                    Global::RelativePointerManager => AppState {
                        relative_pointer_mgr: true,
                        ..*self
                    },
                };
                let known: u32 = global.max_version();
                Some(
                    Binding {
                        global,
                        version: if version < known {
                            version
                        } else {
                            known
                        },
                    },
                )
            },
            None => None,
        }
    }

    /// The surface is configured; the caller acknowledges it.
    pub fn surface_configured(&mut self)
        ensures
            *final(self) == (AppState { window_configured: true, ..*old(self) }),
            old(self).wf() ==> final(self).wf(),
    {
        self.window_configured = true;
    }

    /// An event of the toplevel takes this state to `post`, and the EGL window is to
    /// follow to `resize`.
    pub open spec fn toplevel_step(
        &self,
        event: ToplevelEvent,
        post: AppState,
        resize: Option<Size>,
    ) -> bool {
        match event {
            ToplevelEvent::Configure { width, height } if width > 0 && height > 0 => {
                &&& post == (AppState { window_size: Size { w: width, h: height }, ..*self })
                &&& resize == if self.egl_ctx {
                    Some(Size { w: width, h: height })
                } else {
                    None
                }
            },
            ToplevelEvent::Close => post == (AppState { running: false, ..*self })
                && resize is None,
            _ => post == *self && resize is None,
        }
    }

    /// The toplevel gets a size, which is taken over unless it is left open, or
    /// is closed. The size is returned if an EGL window has to follow it.
    pub fn toplevel_event(&mut self, event: ToplevelEvent) -> (resize: Option<Size>)
        ensures
            old(self).toplevel_step(event, *final(self), resize),
            match event {
                ToplevelEvent::Configure { width, height } => if width > 0 && height > 0 {
                    &&& *final(self) == (AppState {
                        window_size: Size { w: width, h: height },
                        ..*old(self)
                    })
                    &&& resize == if old(self).egl_ctx {
                        Some(Size { w: width, h: height })
                    } else {
                        None
                    }
                } else {
                    *final(self) == *old(self) && resize is None
                },
                ToplevelEvent::Close => {
                    *final(self) == (AppState { running: false, ..*old(self) }) && resize is None
                },
                ToplevelEvent::Other => *final(self) == *old(self) && resize is None,
            },
            old(self).wf() ==> final(self).wf(),
    {
        match event {
            ToplevelEvent::Configure { width, height } => {
                if width > 0 && height > 0 {
                    self.window_size = Size { w: width, h: height };
                    if self.egl_ctx {
                        return Some(self.window_size);
                    }
                }
                None
            },
            ToplevelEvent::Close => {
                self.running = false;
                None
            },
            ToplevelEvent::Other => None,
        }
    }

    /// The seat's capabilities take this state to `post`; `get` is whether to get
    /// its pointer.
    pub open spec fn seat_step(
        &self,
        capabilities: Option<u32>,
        post: AppState,
        get: bool,
    ) -> bool {
        &&& get == (!self.pointer && capabilities is Some && capabilities->0 % 2 == 1)
        &&& post == (AppState { pointer: self.pointer || get, ..*self })
    }

    /// The seat tells its capabilities, or such as are not understood (`None`).
    /// The answer is whether to get its pointer; it is got once.
    pub fn seat_capabilities(&mut self, capabilities: Option<u32>) -> (get: bool)
        ensures
            old(self).seat_step(capabilities, *final(self), get),
            get <==> !old(self).pointer && capabilities is Some && capabilities->0 % 2 == 1,
            *final(self) == (AppState { pointer: old(self).pointer || get, ..*old(self) }),
            old(self).wf() ==> final(self).wf(),
    {
        if let Some(caps) = capabilities {
            assert(caps & 1 == caps % 2) by (bit_vector);
            if caps & SEAT_CAPABILITY_POINTER == SEAT_CAPABILITY_POINTER && !self.pointer {
                self.pointer = true;
                return true;
            }
        }
        false
    }

    /// A drag can be followed: all objects that it takes are there.
    pub open spec fn can_grab(&self) -> bool {
        self.can_lock() && self.relative_pointer_mgr
    }

    /// A pointer event takes this state to `post` and is answered with `action`.
    pub open spec fn pointer_step(
        &self,
        event: PointerEvent,
        post: AppState,
        action: PointerAction,
    ) -> bool {
        match event {
            PointerEvent::Button { button, state } => if button != BTN_LEFT {
                action is Nothing && post == *self
            } else if state is Pressed {
                &&& action == if self.can_grab() {
                    PointerAction::Grab
                } else {
                    PointerAction::Nothing
                }
                &&& post == (AppState {
                    drag_active: true,
                    drag_vx: self.ptr_x as i64,
                    drag_vy: self.ptr_y as i64,
                    locked_pointer: self.locked_pointer || self.can_grab(),
                    relative_pointer: self.relative_pointer || self.can_grab(),
                    ..*self
                })
            } else {
                &&& action == PointerAction::Release {
                    unlock: self.locked_pointer,
                    unfollow: self.relative_pointer,
                }
                &&& post == (AppState {
                    drag_active: false,
                    locked_pointer: false,
                    relative_pointer: false,
                    ..*self
                })
            },
            PointerEvent::Motion { x, y } => {
                &&& action is Nothing
                &&& post == (AppState { ptr_x: x, ptr_y: y, ..*self })
            },
            PointerEvent::Axis { axis, value } => {
                &&& post == *self
                &&& action == if axis is VerticalScroll {
                    PointerAction::Zoom { value }
                } else {
                    PointerAction::Nothing
                }
            },
            PointerEvent::Other => action is Nothing && post == *self,
        }
    }

    /// A pointer event. The left button starts a drag and ends it; motion is
    /// noted, for the next drag to start from; vertical scrolling zooms.
    pub fn pointer_event(&mut self, event: PointerEvent) -> (action: PointerAction)
        ensures
            old(self).pointer_step(event, *final(self), action),
            event matches PointerEvent::Axis { axis: Axis::VerticalScroll, value } ==> action == (
            PointerAction::Zoom { value }),
            event matches PointerEvent::Button { button, state } ==> (button == 272
                ==> final(self).drag_active == (state == ButtonState::Pressed)),
            event matches PointerEvent::Motion { x, y } ==> final(self).ptr_x == x
                && final(self).ptr_y == y,
            old(self).wf() ==> final(self).wf(),
    {
        match event {
            PointerEvent::Button { button, state } => {
                if button != BTN_LEFT {
                    return PointerAction::Nothing;
                }
                let pressed: bool = match state {
                    ButtonState::Pressed => true,
                    _ => false,
                };
                self.drag_active = pressed;
                if pressed {
                    self.drag_vx = self.ptr_x as i64;
                    self.drag_vy = self.ptr_y as i64;
                    if self.pointer_constraints && self.relative_pointer_mgr && self.surface
                        && self.pointer {
                        self.locked_pointer = true;
                        self.relative_pointer = true;
                        PointerAction::Grab
                    } else {
                        PointerAction::Nothing
                    }
                } else {
                    let action: PointerAction = PointerAction::Release {
                        unlock: self.locked_pointer,
                        unfollow: self.relative_pointer,
                    };
                    self.locked_pointer = false;
                    self.relative_pointer = false;
                    action
                }
            },
            PointerEvent::Motion { x, y } => {
                self.ptr_x = x;
                self.ptr_y = y;
                PointerAction::Nothing
            },
            PointerEvent::Axis { axis, value } => {
                match axis {
                    Axis::VerticalScroll => PointerAction::Zoom { value },
                    _ => PointerAction::Nothing,
                }
            },
            PointerEvent::Other => PointerAction::Nothing,
        }
    }

    /// Motion takes the virtual cursor off the window, on either axis.
    pub open spec fn motion_leaves(&self, dx: int, dy: int) -> bool {
        ||| leaves(self.drag_vx + dx, self.window_size.w as int)
        ||| leaves(self.drag_vy + dy, self.window_size.h as int)
    }

    /// Motion takes this state to `post` and is answered with `warp`.
    pub open spec fn motion_step(
        &self,
        dx: int,
        dy: int,
        post: AppState,
        warp: Option<Warp>,
    ) -> bool {
        &&& post.drag_vx == saturated(wrapped(self.drag_vx + dx, self.window_size.w as int))
        &&& post.drag_vy == saturated(wrapped(self.drag_vy + dy, self.window_size.h as int))
        &&& warp == if self.motion_leaves(dx, dy) {
            Some(
                Warp {
                    hint: if self.locked_pointer {
                        Some((post.drag_vx, post.drag_vy))
                    } else {
                        None
                    },
                    relock: self.can_lock(),
                },
            )
        } else {
            None
        }
        &&& post == (AppState {
            drag_vx: post.drag_vx,
            drag_vy: post.drag_vy,
            locked_pointer: if warp is Some {
                self.can_lock()
            } else {
                self.locked_pointer
            },
            ..*self
        })
    }

    /// The pointer moved by `dx` and `dy` steps while it is locked. The virtual
    /// cursor moves along and wraps round at the window's edges; where it does,
    /// the cursor is to be taken there.
    pub fn relative_motion(&mut self, dx: i32, dy: i32) -> (warp: Option<Warp>)
        ensures
            final(self).drag_vx == saturated(
                wrapped(old(self).drag_vx + dx, old(self).window_size.w as int),
            ),
            final(self).drag_vy == saturated(
                wrapped(old(self).drag_vy + dy, old(self).window_size.h as int),
            ),
            old(self).motion_step(dx as int, dy as int, *final(self), warp),
            warp is Some <==> old(self).motion_leaves(dx as int, dy as int),
            warp is None <==> 256 <= old(self).drag_vx + dx <= (old(self).window_size.w - 1) * 256
                && 256 <= old(self).drag_vy + dy <= (old(self).window_size.h - 1) * 256,
            warp is None ==> final(self).drag_vx == old(self).drag_vx + dx && final(self).drag_vy
                == old(self).drag_vy + dy,
            warp matches Some(w) ==> w.relock == (old(self).pointer_constraints
                && old(self).surface && old(self).pointer),
            warp matches Some(w) ==> {
                &&& w.hint == if old(self).locked_pointer {
                    Some((final(self).drag_vx, final(self).drag_vy))
                } else {
                    None
                }
                &&& w.relock == old(self).can_lock()
            },
            *final(self) == (AppState {
                drag_vx: final(self).drag_vx,
                drag_vy: final(self).drag_vy,
                locked_pointer: if warp is Some {
                    old(self).can_lock()
                } else {
                    old(self).locked_pointer
                },
                ..*old(self)
            }),
            old(self).wf() && (old(self).drag_active || !old(self).motion_leaves(
                dx as int,
                dy as int,
            )) ==> final(self).wf(),
            old(self).wf() && old(self).locked_pointer ==> final(self).locked_pointer,
    {
        let (vx, off_x) = move_and_wrap(self.drag_vx, dx, self.window_size.w);
        let (vy, off_y) = move_and_wrap(self.drag_vy, dy, self.window_size.h);
        let relock: bool = self.pointer_constraints && self.surface && self.pointer;
        let warp: Option<Warp> = if off_x || off_y {
            let hint: Option<(i64, i64)> = if self.locked_pointer {
                Some((vx, vy))
            } else {
                None
            };
            Some(Warp { hint, relock })
        } else {
            None
        };
        let locked_pointer: bool = if off_x || off_y {
            relock
        } else {
            self.locked_pointer
        };
        *self = AppState { drag_vx: vx, drag_vy: vy, locked_pointer, ..*self };
        warp
    }
}

} // verus!
