//! Which pixels of a captured frame are shown, and where in the window.
//!
//! Screen, frame and window coordinates have y = 0 at the top; OpenGL has it at
//! the bottom.
use vstd::prelude::*;
use vstd::string::StringExecFns;

verus! {

#[derive(Clone, Copy, Debug, PartialEq, Eq, Structural)]
pub struct Rect {
    pub x: i32,
    pub y: i32,
    pub w: i32,
    pub h: i32,
}

#[derive(Clone, Copy, Debug, PartialEq, Eq, Structural)]
pub struct Size {
    pub w: i32,
    pub h: i32,
}

/// The part of the frame plane that the window looks at, in whole pixels: the
/// left and top edge rounded down, the right and bottom edge rounded up. It may
/// reach past the frame on any side.
#[derive(Clone, Copy, Debug, PartialEq, Eq, Structural)]
pub struct ViewEdges {
    pub left: i64,
    pub top: i64,
    pub right: i64,
    pub bottom: i64,
}

/// Where the visible part begins on one axis: at the view's edge, but not
/// before the frame does, and no further than a coordinate can say.
pub open spec fn visible_start(edge: int) -> int {
    if edge < 0 {
        0
    } else if edge > i32::MAX {
        i32::MAX as int
    } else {
        edge
    }
}

/// Where it ends: at the view's edge, but not after the frame does.
pub open spec fn visible_end(edge: int, len: int) -> int {
    let end = if edge < len {
        edge
    } else {
        len
    };
    if end < i32::MIN {
        i32::MIN as int
    } else if end > i32::MAX {
        i32::MAX as int
    } else {
        end
    }
}

/// The difference of the two fits a coordinate, on both axes.
pub open spec fn source_fits(view: ViewEdges, buf_w: u32, buf_h: u32) -> bool {
    &&& visible_end(view.right as int, buf_w as int) - visible_start(view.left as int) >= i32::MIN
    &&& visible_end(view.bottom as int, buf_h as int) - visible_start(view.top as int) >= i32::MIN
}

fn clip_start(edge: i64) -> (start: i32)
    ensures
        start == visible_start(edge as int),
{
    if edge < 0 {
        0
    } else if edge > 0x7fff_ffff {
        i32::MAX
    } else {
        edge as i32
    }
}

fn clip_end(edge: i64, len: u32) -> (end: i32)
    ensures
        end == visible_end(edge as int, len as int),
{
    let end: i64 = if edge < len as i64 {
        edge
    } else {
        len as i64
    };
    if end < -0x8000_0000 {
        i32::MIN
    } else if end > 0x7fff_ffff {
        i32::MAX
    } else {
        end as i32
    }
}

/// The part of a `buf_w` by `buf_h` frame that is inside the view. Its width or
/// height is negative where the view lies wholly to the right of the frame or
/// below it.
pub fn source_rect(view: ViewEdges, buf_w: u32, buf_h: u32) -> (src: Rect)
    requires
        source_fits(view, buf_w, buf_h),
    ensures
        src.x == visible_start(view.left as int),
        src.y == visible_start(view.top as int),
        src.x + src.w == visible_end(view.right as int, buf_w as int),
        src.y + src.h == visible_end(view.bottom as int, buf_h as int),
        0 <= view.left <= 0x7fff_ffff ==> src.x == view.left,
        view.left < 0 ==> src.x == 0,
        0 <= view.top <= 0x7fff_ffff ==> src.y == view.top,
        view.top < 0 ==> src.y == 0,
        -0x8000_0000 <= view.right <= buf_w && view.right <= 0x7fff_ffff ==> src.x + src.w
            == view.right,
        view.right > buf_w && buf_w <= 0x7fff_ffff ==> src.x + src.w == buf_w,
        -0x8000_0000 <= view.bottom <= buf_h && view.bottom <= 0x7fff_ffff ==> src.y + src.h
            == view.bottom,
        view.bottom > buf_h && buf_h <= 0x7fff_ffff ==> src.y + src.h == buf_h,
{
    let x0: i32 = clip_start(view.left);
    let y0: i32 = clip_start(view.top);
    let x1: i32 = clip_end(view.right, buf_w);
    let y1: i32 = clip_end(view.bottom, buf_h);
    Rect { x: x0, y: y0, w: x1 - x0, h: y1 - y0 }
}

/// The start is the edge itself as long as that is a coordinate inside the plane,
/// and else the nearest one that is; so is the end, of whichever is nearer of the
/// view's edge and the frame's.
pub proof fn lemma_clip_to_coordinates(edge: int, len: int)
    ensures
        edge <= 0 ==> visible_start(edge) == 0,
        0 <= edge <= 0x7fff_ffff ==> visible_start(edge) == edge,
        edge >= 0x7fff_ffff ==> visible_start(edge) == 0x7fff_ffff,
        visible_end(edge, len) == visible_end(len, edge),
        -0x8000_0000 <= edge <= 0x7fff_ffff && edge <= len ==> visible_end(edge, len) == edge,
        edge <= -0x8000_0000 ==> visible_end(edge, len) == -0x8000_0000,
        edge >= 0x7fff_ffff && len >= 0x7fff_ffff ==> visible_end(edge, len) == 0x7fff_ffff,
{
}

/// What fits a coordinate, in numbers: on each axis the end may not be more than
/// two to the power of 31 before the start.
pub proof fn lemma_source_fits_in_numbers(view: ViewEdges, buf_w: u32, buf_h: u32)
    ensures
        source_fits(view, buf_w, buf_h) <==> visible_end(view.right as int, buf_w as int)
            - visible_start(view.left as int) >= -0x8000_0000 && visible_end(
            view.bottom as int,
            buf_h as int,
        ) - visible_start(view.top as int) >= -0x8000_0000,
{
}

/// A view whose right and bottom edges are not left of or above the frame, as
/// one around a centre inside the plane is, always has a source rectangle.
pub proof fn lemma_source_fits(view: ViewEdges, buf_w: u32, buf_h: u32)
    requires
        view.right >= 0,
        view.bottom >= 0,
    ensures
        source_fits(view, buf_w, buf_h),
{
}

/// Along one axis the source covers exactly those pixels that are both in the
/// view and in the frame.
pub proof fn lemma_source_is_visible_part(start: i64, end: i64, len: u32, p: int)
    requires
        len <= i32::MAX,
    ensures
        visible_start(start as int) <= p < visible_end(end as int, len as int) <==> (start <= p < end
            && 0 <= p < len),
{
}

/// A view that lies inside the frame is shown whole.
pub proof fn lemma_inner_view_is_whole(start: i64, end: i64, len: u32)
    requires
        0 <= start,
        end <= len <= i32::MAX,
        start <= end,
    ensures
        visible_start(start as int) == start,
        visible_end(end as int, len as int) == end,
{
}

/// The corners of a framebuffer blit, in OpenGL's coordinates for the
/// destination.
#[derive(Clone, Copy, Debug, PartialEq, Eq, Structural)]
pub struct BlitCoords {
    pub src_x0: i32,
    pub src_y0: i32,
    pub src_x1: i32,
    pub src_y1: i32,
    pub dst_x0: i32,
    pub dst_y0: i32,
    pub dst_x1: i32,
    pub dst_y1: i32,
}

/// The OpenGL row of a window row: rows are counted from the other end.
pub open spec fn flip_y(win_h: int, y: int) -> int {
    win_h - y
}

/// Every corner of the blit fits a coordinate.
pub open spec fn blit_fits(src: Rect, dst: Rect, win_h: i32) -> bool {
    &&& i32::MIN <= src.x + src.w <= i32::MAX
    &&& i32::MIN <= src.y + src.h <= i32::MAX
    &&& i32::MIN <= dst.x + dst.w <= i32::MAX
    &&& i32::MIN <= dst.y + dst.h <= i32::MAX
    &&& i32::MIN <= flip_y(win_h as int, dst.y as int) <= i32::MAX
    &&& i32::MIN <= flip_y(win_h as int, dst.y + dst.h) <= i32::MAX
}

/// The corners that copy `src` of the frame to `dst` of a window of height
/// `win_h`, the right way up.
pub fn blit_coords(src: Rect, dst: Rect, win_h: i32) -> (blit: BlitCoords)
    requires
        blit_fits(src, dst, win_h),
    ensures
        blit.src_x0 == src.x,
        blit.src_y0 == src.y,
        blit.src_x1 == src.x + src.w,
        blit.src_y1 == src.y + src.h,
        blit.dst_x0 == dst.x,
        blit.dst_x1 == dst.x + dst.w,
        blit.dst_y0 == flip_y(win_h as int, dst.y as int),
        blit.dst_y1 == flip_y(win_h as int, dst.y + dst.h),
        blit.dst_y0 + dst.y == win_h,
        blit.dst_y0 - blit.dst_y1 == dst.h,
{
    BlitCoords {
        src_x0: src.x,
        src_y0: src.y,
        src_x1: src.x + src.w,
        src_y1: src.y + src.h,
        dst_x0: dst.x,
        dst_y0: win_h - dst.y,
        dst_x1: dst.x + dst.w,
        dst_y1: win_h - (dst.y + dst.h),
    }
}

/// Flipping a row twice gives it back, and turns the order of rows round; so
/// the height of a rectangle is kept and its top comes out above its bottom.
pub proof fn lemma_flip_y(win_h: int, y: int, h: int)
    ensures
        y + flip_y(win_h, y) == win_h,
        flip_y(win_h, flip_y(win_h, y)) == y,
        flip_y(win_h, y) - flip_y(win_h, y + h) == h,
        0 <= y <= win_h <==> 0 <= flip_y(win_h, y) <= win_h,
{
}

/// A blit fits if all eight of its coordinates are numbers of 32 bits.
pub proof fn lemma_blit_fits(src: Rect, dst: Rect, win_h: i32)
    ensures
        blit_fits(src, dst, win_h) <==> {
            &&& -0x8000_0000 <= src.x + src.w <= 0x7fff_ffff
            &&& -0x8000_0000 <= src.y + src.h <= 0x7fff_ffff
            &&& -0x8000_0000 <= dst.x + dst.w <= 0x7fff_ffff
            &&& -0x8000_0000 <= dst.y + dst.h <= 0x7fff_ffff
            &&& -0x8000_0000 <= win_h - dst.y <= 0x7fff_ffff
            &&& -0x8000_0000 <= win_h - (dst.y + dst.h) <= 0x7fff_ffff
        },
{
}

/// A number of 32 bits read as a signed one.
pub open spec fn as_signed(n: u32) -> int {
    if n <= i32::MAX {
        n as int
    } else {
        n - 0x1_0000_0000
    }
}

/// Read as a signed one, a number below two to the power of 31 is itself; any
/// other is less by two to the power of 32. No two numbers come out the same.
pub proof fn lemma_as_signed(n: u32, m: u32)
    ensures
        n < 0x8000_0000 ==> as_signed(n) == n,
        n >= 0x8000_0000 ==> as_signed(n) == n - 0x1_0000_0000,
        -0x8000_0000 <= as_signed(n) < 0x8000_0000,
        as_signed(n) == as_signed(m) ==> n == m,
{
}

/// Reads a number of 32 bits as a signed one, as the protocols and OpenGL have
/// sizes.
pub fn to_signed(n: u32) -> (signed: i32)
    ensures
        signed == as_signed(n),
{
    assert(n <= 0x7fff_ffff ==> (n as i32) as int == n as int) by (bit_vector);
    assert(n > 0x7fff_ffff ==> (n as i32) as int == n as int - 0x1_0000_0000) by (bit_vector);
    #[verifier::truncate]
    (n as i32)
}

/// How pixels in memory are uploaded to the texture, one byte for each component.
#[derive(Clone, Copy, Debug, PartialEq, Eq, Structural)]
pub struct TextureUpload {
    pub internal_format: i32,
    pub width: i32,
    pub height: i32,
    pub format: u32,
}

/// Describes the upload of a `width` by `height` picture. `gl_format` is both the
/// format that the texture has and the one that the pixels are in.
pub fn texture_upload(width: u32, height: u32, gl_format: u32) -> (upload: TextureUpload)
    ensures
        upload.internal_format == as_signed(gl_format),
        upload.width == as_signed(width),
        upload.height == as_signed(height),
        upload.format == gl_format,
        gl_format < 0x8000_0000 ==> upload.internal_format == gl_format,
        width < 0x8000_0000 ==> upload.width == width,
        height < 0x8000_0000 ==> upload.height == height,
{
    TextureUpload {
        internal_format: to_signed(gl_format),
        width: to_signed(width),
        height: to_signed(height),
        format: gl_format,
    }
}

/// Whether the view has been centred. That is done on the first frame, and left
/// to the user from then on.
#[derive(Clone, Copy, Debug, PartialEq, Eq, Structural)]
pub struct Centring {
    pub done: bool,
}

/// A frame takes `pre` to `post`, and the view is to be centred on it or not.
pub open spec fn centring_step(pre: Centring, post: Centring, centre: bool) -> bool {
    centre == !pre.done && post.done
}

/// Of all frames only the first is centred on: once a frame has come, centred on
/// or not, none that follows is.
pub proof fn lemma_only_the_first_frame_is_centred(
    pre: Centring,
    between: Centring,
    first: bool,
    post: Centring,
    second: bool,
)
    requires
        centring_step(pre, between, first),
        centring_step(between, post, second),
    ensures
        first <==> !pre.done,
        !second,
        between.done && post.done,
{
}

impl Centring {
    /// Before the first frame.
    pub fn new() -> (centring: Self)
        ensures
            !centring.done,
    {
        Centring { done: false }
    }

    /// A frame is about to be shown: whether to centre the view on it.
    pub fn next_frame(&mut self) -> (centre: bool)
        ensures
            centre == !old(self).done,
            final(self).done,
            centring_step(*old(self), *final(self), centre),
    {
        let centre: bool = !self.done;
        self.done = true;
        centre
    }
}

/// `glGetError`'s answer when all is well.
pub const GL_NO_ERROR: u32 = 0;

/// An error flag that OpenGL had raised.
#[derive(Debug, PartialEq, Eq)]
pub struct GlError {
    /// What had been done before.
    pub label: String,
    pub code: u32,
}

/// Turns what `glGetError` returned after the work that `label` names into a
/// result.
pub fn check_gl_error(label: &str, err: u32) -> (checked: Result<(), GlError>)
    ensures
        checked is Ok <==> err == GL_NO_ERROR,
        checked is Ok <==> err == 0,
        checked matches Err(e) ==> e.label@ == label@ && e.code == err,
{
    if err != GL_NO_ERROR {
        Err(GlError { label: label.to_owned(), code: err })
    } else {
        Ok(())
    }
}

/// The lower-case hexadecimal digit of a number below sixteen.
pub open spec fn hex_digit(d: int) -> char {
    if d == 0 {
        '0'
    } else if d == 1 {
        '1'
    } else if d == 2 {
        '2'
    } else if d == 3 {
        '3'
    } else if d == 4 {
        '4'
    } else if d == 5 {
        '5'
    } else if d == 6 {
        '6'
    } else if d == 7 {
        '7'
    } else if d == 8 {
        '8'
    } else if d == 9 {
        '9'
    } else if d == 10 {
        'a'
    } else if d == 11 {
        'b'
    } else if d == 12 {
        'c'
    } else if d == 13 {
        'd'
    } else if d == 14 {
        'e'
    } else {
        'f'
    }
}

/// A number written in hexadecimal, without leading zeros.
pub open spec fn hex_text(n: nat) -> Seq<char>
    decreases n,
{
    if n < 16 {
        seq![hex_digit(n as int)]
    } else {
        hex_text(n / 16).push(hex_digit((n % 16) as int))
    }
}

/// The digits are the ten figures and then the letters from `a` on, in the order
/// of the characters' own numbers.
pub proof fn lemma_hex_digit(d: int)
    requires
        0 <= d < 16,
    ensures
        d < 10 ==> hex_digit(d) as int == '0' as int + d,
        d >= 10 ==> hex_digit(d) as int == 'a' as int + (d - 10),
{
}

/// Sixteen times a number and a digit more is written as the number is, with the
/// digit behind it; zero is not written before other digits.
pub proof fn lemma_hex_text(n: nat, d: nat)
    requires
        d < 16,
    ensures
        hex_text(d) == seq![hex_digit(d as int)],
        n > 0 ==> hex_text(n * 16 + d) == hex_text(n).push(hex_digit(d as int)),
{
    assert((n * 16 + d) / 16 == n && (n * 16 + d) % 16 == d);
}

/// The first digit of a number other than zero is not a zero.
pub proof fn lemma_no_leading_zero(n: nat)
    requires
        n > 0,
    ensures
        hex_text(n).len() > 0,
        hex_text(n)[0] != '0',
    decreases n,
{
    if n >= 16 {
        lemma_no_leading_zero(n / 16);
    }
}

fn hex_digit_text(d: u32) -> (digit: &'static str)
    requires
        d < 16,
    ensures
        digit@ == seq![hex_digit(d as int)],
{
    proof {
        reveal_strlit("0");
        reveal_strlit("1");
        reveal_strlit("2");
        reveal_strlit("3");
        reveal_strlit("4");
        reveal_strlit("5");
        reveal_strlit("6");
        reveal_strlit("7");
        reveal_strlit("8");
        reveal_strlit("9");
        reveal_strlit("a");
        reveal_strlit("b");
        reveal_strlit("c");
        reveal_strlit("d");
        reveal_strlit("e");
        reveal_strlit("f");
    }
    match d {
        0 => "0",
        1 => "1",
        2 => "2",
        3 => "3",
        4 => "4",
        5 => "5",
        6 => "6",
        7 => "7",
        8 => "8",
        9 => "9",
        10 => "a",
        11 => "b",
        12 => "c",
        13 => "d",
        14 => "e",
        _ => "f",
    }
}

fn hex(n: u32) -> (digits: String)
    ensures
        digits@ == hex_text(n as nat),
    decreases n,
{
    if n < 16 {
        hex_digit_text(n).to_owned()
    } else {
        let mut digits: String = hex(n / 16);
        digits.append(hex_digit_text(n % 16));
        digits
    }
}

impl GlError {
    /// The error in words.
    pub fn message(&self) -> (text: String)
        ensures
            text@ == "GL error after "@ + self.label@ + ": 0x"@ + hex_text(self.code as nat),
    {
        let mut text: String = "GL error after ".to_owned();
        text.append(self.label.as_str());
        text.append(": 0x");
        text.append(hex(self.code).as_str());
        text
    }
}

} // verus!
