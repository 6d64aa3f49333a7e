//! EGL attribute lists, and what the EGL extension string says of DMA-BUF.
use vstd::prelude::*;

use crate::text::{contains_text, has_text, lemma_contains_prefix};

verus! {

// Core EGL tokens.
pub const EGL_ALPHA_SIZE: i32 = 0x3021;

pub const EGL_BLUE_SIZE: i32 = 0x3022;

pub const EGL_GREEN_SIZE: i32 = 0x3023;

pub const EGL_RED_SIZE: i32 = 0x3024;

pub const EGL_SURFACE_TYPE: i32 = 0x3033;

pub const EGL_NONE: i32 = 0x3038;

pub const EGL_RENDERABLE_TYPE: i32 = 0x3040;

pub const EGL_HEIGHT: i32 = 0x3056;

pub const EGL_WIDTH: i32 = 0x3057;

pub const EGL_CONTEXT_CLIENT_VERSION: i32 = 0x3098;

pub const EGL_WINDOW_BIT: i32 = 0x0004;

pub const EGL_OPENGL_ES3_BIT: i32 = 0x0040;

// Tokens of EGL_EXT_image_dma_buf_import and of its modifiers extension.
pub const EGL_LINUX_DMA_BUF_EXT: u32 = 0x3270;

pub const EGL_LINUX_DRM_FOURCC_EXT: usize = 0x3271;

pub const EGL_DMA_BUF_PLANE0_FD_EXT: usize = 0x3272;

pub const EGL_DMA_BUF_PLANE0_OFFSET_EXT: usize = 0x3273;

pub const EGL_DMA_BUF_PLANE0_PITCH_EXT: usize = 0x3274;

pub const EGL_DMA_BUF_PLANE0_MODIFIER_LO_EXT: usize = 0x3443;

pub const EGL_DMA_BUF_PLANE0_MODIFIER_HI_EXT: usize = 0x3444;

/// The framebuffer configuration asked for: 8 bits for each colour, no alpha,
/// a window surface, OpenGL ES 3.
pub fn config_attribs() -> (attribs: Vec<i32>)
    ensures
        attribs@ == seq![
            EGL_RED_SIZE, 8,
            EGL_GREEN_SIZE, 8,
            EGL_BLUE_SIZE, 8,
            EGL_ALPHA_SIZE, 0,
            EGL_SURFACE_TYPE, EGL_WINDOW_BIT,
            EGL_RENDERABLE_TYPE, EGL_OPENGL_ES3_BIT,
            EGL_NONE,
        ],
        attribs@ == seq![
            0x3024i32, 8, 0x3023, 8, 0x3022, 8, 0x3021, 0, 0x3033, 4, 0x3040, 0x40, 0x3038,
        ],
{
    vec![
        EGL_RED_SIZE, 8,
        EGL_GREEN_SIZE, 8,
        EGL_BLUE_SIZE, 8,
        EGL_ALPHA_SIZE, 0,
        EGL_SURFACE_TYPE, EGL_WINDOW_BIT,
        EGL_RENDERABLE_TYPE, EGL_OPENGL_ES3_BIT,
        EGL_NONE,
    ]
}

/// The context asked for: an OpenGL ES 3 one.
pub fn context_attribs() -> (attribs: Vec<i32>)
    ensures
        attribs@ == seq![EGL_CONTEXT_CLIENT_VERSION, 3i32, EGL_NONE],
        attribs@ == seq![0x3098i32, 3, 0x3038],
{
    vec![EGL_CONTEXT_CLIENT_VERSION, 3, EGL_NONE]
}

/// The low 32 bits of a format modifier.
pub open spec fn modifier_lo(modifier: u64) -> int {
    modifier as int % 0x1_0000_0000
}

/// The high 32 bits of a format modifier.
pub open spec fn modifier_hi(modifier: u64) -> int {
    modifier as int / 0x1_0000_0000
}

/// A modifier is the two halves it is handed over as, and nothing is lost:
/// modifiers with the same halves are the same.
pub proof fn lemma_modifier_halves(a: u64, b: u64)
    ensures
        a == modifier_hi(a) * 0x1_0000_0000 + modifier_lo(a),
        0 <= modifier_lo(a) < 0x1_0000_0000,
        0 <= modifier_hi(a) < 0x1_0000_0000,
        modifier_lo(a) == modifier_lo(b) && modifier_hi(a) == modifier_hi(b) ==> a == b,
{
}

/// Splits a modifier into its high and its low 32 bits.
pub fn split_modifier(modifier: u64) -> (halves: (u32, u32))
    ensures
        halves.0 == modifier_hi(modifier),
        halves.1 == modifier_lo(modifier),
{
    assert(modifier >> 32 == modifier / 0x1_0000_0000) by (bit_vector);
    assert(modifier & 0xffff_ffff == modifier % 0x1_0000_0000) by (bit_vector);
    ((modifier >> 32) as u32, (modifier & 0xffff_ffff) as u32)
}

/// The attributes that import a single-plane DMA-BUF as an EGL image: its size,
/// its format, and where and how its plane is laid out.
pub open spec fn dmabuf_attrib_list(
    width: u32,
    height: u32,
    fourcc: u32,
    fd: i32,
    offset: u32,
    stride: u32,
    modifier: u64,
) -> Seq<usize> {
    seq![
        EGL_WIDTH as usize, width as usize,
        EGL_HEIGHT as usize, height as usize,
        EGL_LINUX_DRM_FOURCC_EXT, fourcc as usize,
        EGL_DMA_BUF_PLANE0_FD_EXT, fd as usize,
        EGL_DMA_BUF_PLANE0_OFFSET_EXT, offset as usize,
        EGL_DMA_BUF_PLANE0_PITCH_EXT, stride as usize,
        EGL_DMA_BUF_PLANE0_MODIFIER_LO_EXT, modifier_lo(modifier) as usize,
        EGL_DMA_BUF_PLANE0_MODIFIER_HI_EXT, modifier_hi(modifier) as usize,
        EGL_NONE as usize,
    ]
}

/// Behind each key of the list stands what was given for it, whatever the other
/// values are: the stride is the one given and not one that follows from the
/// width. The list ends where EGL looks for its end.
pub proof fn lemma_attribs_say_what_was_given(
    width: u32,
    height: u32,
    fourcc: u32,
    fd: i32,
    offset: u32,
    stride: u32,
    modifier: u64,
)
    ensures
        ({
            let attribs = dmabuf_attrib_list(width, height, fourcc, fd, offset, stride, modifier);
            &&& attribs.len() == 17
            &&& attribs[0] == 0x3057 && attribs[1] == width
            &&& attribs[2] == 0x3056 && attribs[3] == height
            &&& attribs[4] == 0x3271 && attribs[5] == fourcc
            &&& attribs[6] == 0x3272 && attribs[7] == fd as usize
            &&& fd >= 0 ==> attribs[7] == fd
            &&& attribs[8] == 0x3273 && attribs[9] == offset
            &&& attribs[10] == 0x3274 && attribs[11] == stride
            &&& attribs[12] == 0x3443 && attribs[14] == 0x3444
            &&& attribs[15] * 0x1_0000_0000 + attribs[13] == modifier
            &&& attribs[13] < 0x1_0000_0000
            &&& attribs[16] == 0x3038
        }),
{
}

/// Two imports with the same list are of the same picture: nothing that was given
/// is lost in it.
pub proof fn lemma_attribs_lose_nothing(
    a: (u32, u32, u32, u32, u32, u64),
    b: (u32, u32, u32, u32, u32, u64),
    fd: i32,
)
    requires
        dmabuf_attrib_list(a.0, a.1, a.2, fd, a.3, a.4, a.5) == dmabuf_attrib_list(
            b.0,
            b.1,
            b.2,
            fd,
            b.3,
            b.4,
            b.5,
        ),
    ensures
        a == b,
{
    lemma_attribs_say_what_was_given(a.0, a.1, a.2, fd, a.3, a.4, a.5);
    lemma_attribs_say_what_was_given(b.0, b.1, b.2, fd, b.3, b.4, b.5);
}

/// Lists the attributes that import a single-plane DMA-BUF.
pub fn dmabuf_attribs(
    width: u32,
    height: u32,
    fourcc: u32,
    fd: i32,
    offset: u32,
    stride: u32,
    modifier: u64,
) -> (attribs: Vec<usize>)
    ensures
        attribs@ == dmabuf_attrib_list(width, height, fourcc, fd, offset, stride, modifier),
        attribs@.len() == 17,
        attribs@[1] == width,
        attribs@[3] == height,
        attribs@[5] == fourcc,
        attribs@[7] == fd as usize,
        attribs@[9] == offset,
        attribs@[11] == stride,
        attribs@[13] == modifier as int % 0x1_0000_0000,
        attribs@[15] == modifier as int / 0x1_0000_0000,
{
    let (hi, lo) = split_modifier(modifier);
    vec![
        EGL_WIDTH as usize, width as usize,
        EGL_HEIGHT as usize, height as usize,
        EGL_LINUX_DRM_FOURCC_EXT, fourcc as usize,
        EGL_DMA_BUF_PLANE0_FD_EXT, #[verifier::truncate] (fd as usize),
        EGL_DMA_BUF_PLANE0_OFFSET_EXT, offset as usize,
        EGL_DMA_BUF_PLANE0_PITCH_EXT, stride as usize,
        EGL_DMA_BUF_PLANE0_MODIFIER_LO_EXT, lo as usize,
        EGL_DMA_BUF_PLANE0_MODIFIER_HI_EXT, hi as usize,
        EGL_NONE as usize,
    ]
}

/// What an EGL display can do with DMA-BUFs.
#[derive(Clone, Copy, Debug, PartialEq, Eq, Structural)]
pub struct DmaBufSupport {
    /// DMA-BUFs can be imported; without it such frames will fail.
    pub import: bool,
    /// They can be imported with an explicit format modifier.
    pub modifiers: bool,
}

/// Reads a display's extension string.
pub fn dmabuf_support(extensions: &str) -> (support: DmaBufSupport)
    ensures
        support.import == contains_text(extensions@, "EGL_EXT_image_dma_buf_import"@),
        support.modifiers == contains_text(
            extensions@,
            "EGL_EXT_image_dma_buf_import_modifiers"@,
        ),
{
    DmaBufSupport {
        import: has_text(extensions, "EGL_EXT_image_dma_buf_import"),
        modifiers: has_text(extensions, "EGL_EXT_image_dma_buf_import_modifiers"),
    }
}

/// A display that takes modifiers is seen to take plain DMA-BUFs as well: the
/// first extension's name begins with the second's.
pub proof fn lemma_modifiers_imply_import(extensions: Seq<char>)
    requires
        contains_text(extensions, "EGL_EXT_image_dma_buf_import_modifiers"@),
    ensures
        contains_text(extensions, "EGL_EXT_image_dma_buf_import"@),
{
    reveal_strlit("EGL_EXT_image_dma_buf_import");
    reveal_strlit("EGL_EXT_image_dma_buf_import_modifiers");
    lemma_contains_prefix(
        extensions,
        "EGL_EXT_image_dma_buf_import_modifiers"@,
        "EGL_EXT_image_dma_buf_import"@,
    );
}

} // verus!
