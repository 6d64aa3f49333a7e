//! Buffers of our own for screen pixels: which format a DMA-BUF is allocated in,
//! how a shared-memory pool is laid out, and what is remembered of either.
use vstd::prelude::*;

use crate::capture::{DRM_FORMAT_ARGB8888, DRM_FORMAT_MOD_INVALID, GL_BGRA_EXT};
use crate::egl::{dmabuf_attrib_list, dmabuf_attribs, modifier_hi, modifier_lo, split_modifier};
use crate::render::{as_signed, to_signed};
use crate::state::DRM_FORMAT_XRGB8888;

verus! {

/// `wl_shm`'s codes for the two formats that every compositor has. Both are in
/// B G R A byte order in memory.
pub const WL_SHM_FORMAT_ARGB8888: u32 = 0;

pub const WL_SHM_FORMAT_XRGB8888: u32 = 1;

/// All bits of a modifier set. Like DRM_FORMAT_MOD_INVALID, it names no layout.
pub const ALL_MODIFIER_BITS: u64 = 0xffff_ffff_ffff_ffff;

/// A modifier that holds an allocation to no layout.
pub open spec fn is_any_modifier(modifier: u64) -> bool {
    modifier == DRM_FORMAT_MOD_INVALID || modifier == ALL_MODIFIER_BITS
}

/// Just two modifiers leave the layout open, the invalid one and the one with all
/// its bits set. In particular the linear layout, zero, is a layout like others.
pub proof fn lemma_any_modifier(modifier: u64)
    ensures
        is_any_modifier(modifier) <==> modifier == 0x00ff_ffff_ffff_ffff || modifier == u64::MAX,
{
}

/// The first of several formats with a given code.
pub open spec fn first_with(formats: Seq<(u32, u64)>, code: u32) -> Option<(u32, u64)>
    decreases formats.len(),
{
    if formats.len() == 0 {
        None
    } else if formats.first().0 == code {
        Some(formats.first())
    } else {
        first_with(formats.drop_first(), code)
    }
}

/// The format that is preferred: the first XRGB8888 one; failing that, the first
/// ARGB8888 one; failing that, the first.
pub open spec fn preferred(formats: Seq<(u32, u64)>) -> Option<(u32, u64)> {
    if first_with(formats, DRM_FORMAT_XRGB8888) is Some {
        first_with(formats, DRM_FORMAT_XRGB8888)
    } else if first_with(formats, DRM_FORMAT_ARGB8888) is Some {
        first_with(formats, DRM_FORMAT_ARGB8888)
    } else if formats.len() > 0 {
        Some(formats.first())
    } else {
        None
    }
}

fn find_format(formats: &[(u32, u64)], code: u32) -> (found: Option<(u32, u64)>)
    ensures
        found == first_with(formats@, code),
{
    let mut i: usize = 0;
    assert(formats@.skip(0) =~= formats@);
    while i < formats.len()
        invariant
            i <= formats@.len(),
            first_with(formats@, code) == first_with(formats@.skip(i as int), code),
        decreases formats@.len() - i,
    {
        let format: (u32, u64) = formats[i];
        assert(formats@.skip(i as int).first() == format);
        assert(formats@.skip(i as int).drop_first() =~= formats@.skip(i + 1));
        if format.0 == code {
            return Some(format);
        }
        i += 1;
    }
    None
}

/// Picks a format and modifier of those that are advertised. XRGB and ARGB are
/// common, and OpenGL takes them well.
pub fn pick_format(formats: &[(u32, u64)]) -> (picked: Option<(u32, u64)>)
    ensures
        picked == preferred(formats@),
{
    if let Some(format) = find_format(formats, DRM_FORMAT_XRGB8888) {
        return Some(format);
    }
    if let Some(format) = find_format(formats, DRM_FORMAT_ARGB8888) {
        return Some(format);
    }
    if formats.len() > 0 {
        Some(formats[0])
    } else {
        None
    }
}

/// A format is found just where one is advertised, with the code asked for.
proof fn lemma_first_with(formats: Seq<(u32, u64)>, code: u32)
    ensures
        first_with(formats, code) matches Some(f) ==> formats.contains(f) && f.0 == code,
        first_with(formats, code) is None ==> forall|f: (u32, u64)|
            #[trigger] formats.contains(f) ==> f.0 != code,
    decreases formats.len(),
{
    if formats.len() > 0 && formats.first().0 != code {
        let rest = formats.drop_first();
        lemma_first_with(rest, code);
        if first_with(formats, code) is Some {
            let f = first_with(rest, code)->0;
            let k = choose|k: int| 0 <= k < rest.len() && rest[k] == f;
            assert(formats[k + 1] == f);
        } else {
            assert forall|f: (u32, u64)| formats.contains(f) implies f.0 != code by {
                let k = choose|k: int| 0 <= k < formats.len() && formats[k] == f;
                if k > 0 {
                    assert(rest[k - 1] == f);
                    assert(rest.contains(f));
                }
            }
        }
    } else if formats.len() > 0 {
        assert(formats[0] == formats.first());
    }
}

/// What is picked is one of the formats that are advertised, and there is one
/// unless none is. An XRGB8888 format is picked whenever there is one, and an
/// ARGB8888 one whenever there is one and no XRGB8888.
pub proof fn lemma_preferred(formats: Seq<(u32, u64)>)
    ensures
        preferred(formats) is Some <==> formats.len() > 0,
        preferred(formats) matches Some(p) ==> {
            &&& formats.contains(p)
            &&& p.0 == DRM_FORMAT_XRGB8888 <==> exists|f: (u32, u64)|
                #[trigger] formats.contains(f) && f.0 == DRM_FORMAT_XRGB8888
            &&& p.0 != DRM_FORMAT_XRGB8888 && (exists|f: (u32, u64)|
                #[trigger] formats.contains(f) && f.0 == DRM_FORMAT_ARGB8888) ==> p.0
                == DRM_FORMAT_ARGB8888
        },
{
    lemma_first_with(formats, DRM_FORMAT_XRGB8888);
    lemma_first_with(formats, DRM_FORMAT_ARGB8888);
    if formats.len() > 0 {
        assert(formats.contains(formats[0]));
    }
}

/// The first format with a code is the one that no other of that code is before.
proof fn lemma_first_with_at(formats: Seq<(u32, u64)>, code: u32, i: int)
    requires
        0 <= i < formats.len(),
        formats[i].0 == code,
        forall|j: int| 0 <= j < i ==> (#[trigger] formats[j]).0 != code,
    ensures
        first_with(formats, code) == Some(formats[i]),
    decreases formats.len(),
{
    if i > 0 {
        let rest = formats.drop_first();
        assert(formats[0].0 != code);
        assert forall|j: int| 0 <= j < i - 1 implies (#[trigger] rest[j]).0 != code by {
            assert(formats[j + 1].0 != code);
        }
        lemma_first_with_at(rest, code, i - 1);
        assert(rest[i - 1] == formats[i]);
    }
}

/// Among equals the first is picked, with its own modifier: the first XRGB8888
/// format if there is one, wherever it stands; if there is none, the first
/// ARGB8888 one; and if there is neither, the first of all.
pub proof fn lemma_first_of_equals_is_preferred(formats: Seq<(u32, u64)>, i: int)
    requires
        0 <= i < formats.len(),
    ensures
        formats[i].0 == 0x3432_5258 && (forall|j: int|
            0 <= j < i ==> (#[trigger] formats[j]).0 != 0x3432_5258) ==> preferred(formats) == Some(
            formats[i],
        ),
        formats[i].0 == 0x3432_5241 && (forall|j: int|
            0 <= j < i ==> (#[trigger] formats[j]).0 != 0x3432_5241) && (forall|j: int|
            0 <= j < formats.len() ==> (#[trigger] formats[j]).0 != 0x3432_5258) ==> preferred(
            formats,
        ) == Some(formats[i]),
        (forall|j: int|
            0 <= j < formats.len() ==> (#[trigger] formats[j]).0 != 0x3432_5258 && formats[j].0
                != 0x3432_5241) ==> preferred(formats) == Some(formats[0]),
{
    lemma_first_with(formats, DRM_FORMAT_XRGB8888);
    lemma_first_with(formats, DRM_FORMAT_ARGB8888);
    if formats[i].0 == 0x3432_5258 && (forall|j: int|
        0 <= j < i ==> (#[trigger] formats[j]).0 != 0x3432_5258) {
        lemma_first_with_at(formats, DRM_FORMAT_XRGB8888, i);
    }
    if formats[i].0 == 0x3432_5241 && (forall|j: int|
        0 <= j < i ==> (#[trigger] formats[j]).0 != 0x3432_5241) {
        lemma_first_with_at(formats, DRM_FORMAT_ARGB8888, i);
    }
}

/// Whether the `drm_fourcc` crate has a pixel format of this code.
pub uninterp spec fn is_drm_format(code: u32) -> bool;

/// Calls `drm_fourcc::DrmFourcc::try_from`, which succeeds on the codes of the
/// formats that the crate lists. The list is long and is not restated; that
/// XRGB8888 and ARGB8888 are on it is.
#[verifier::external_body]
fn drm_format_exists(code: u32) -> (exists_: bool)
    ensures
        exists_ == is_drm_format(code),
        code == DRM_FORMAT_XRGB8888 || code == DRM_FORMAT_ARGB8888 ==> exists_,
{
    drm_fourcc::DrmFourcc::try_from(code).is_ok()
}

/// The format to allocate a DMA-BUF in.
#[derive(Clone, Copy, Debug, PartialEq, Eq, Structural)]
pub struct DmaBufFormat {
    pub fourcc: u32,
    /// The one modifier that the allocation is held to, if any.
    pub modifier: Option<u64>,
}

/// The format to allocate in, given the advertised format and modifier that were
/// picked and whether the format's code is a DRM format's.
pub open spec fn allocation_format(fourcc: u32, modifier: u64, known: bool) -> Option<
    DmaBufFormat,
> {
    if !known {
        None
    } else if is_any_modifier(modifier) {
        Some(DmaBufFormat { fourcc, modifier: None })
    } else {
        Some(DmaBufFormat { fourcc, modifier: Some(modifier) })
    }
}

/// A format that is allocated keeps the code that was picked, and is held to the
/// modifier that was picked unless that leaves the layout open. Whether there is
/// one depends on nothing but the code being known.
pub proof fn lemma_allocation_keeps_what_was_picked(fourcc: u32, modifier: u64, known: bool)
    ensures
        allocation_format(fourcc, modifier, known) is Some <==> known,
        allocation_format(fourcc, modifier, known) matches Some(format) ==> {
            &&& format.fourcc == fourcc
            &&& modifier == 0x00ff_ffff_ffff_ffff || modifier == u64::MAX
                ==> format.modifier is None
            &&& modifier != 0x00ff_ffff_ffff_ffff && modifier != u64::MAX ==> format.modifier
                == Some(modifier)
        },
{
}

/// Turns the format that was picked into the one to allocate in. A code that is
/// no DRM format's cannot be allocated.
pub fn dmabuf_format_of(fourcc: u32, modifier: u64, known: bool) -> (format: Option<DmaBufFormat>)
    ensures
        format == allocation_format(fourcc, modifier, known),
        format is Some <==> known,
        format matches Some(f) ==> f.fourcc == fourcc && (f.modifier == Some(modifier)
            || f.modifier is None),
{
    if !known {
        return None;
    }
    let modifier: Option<u64> = if modifier == DRM_FORMAT_MOD_INVALID as u64 || modifier
        == ALL_MODIFIER_BITS {
        None
    } else {
        Some(modifier)
    };
    Some(DmaBufFormat { fourcc, modifier })
}

/// Chooses the format to allocate a DMA-BUF in, of those that are advertised;
/// `None` sends the caller back to shared memory.
pub fn choose_dmabuf_format(formats: &[(u32, u64)]) -> (format: Option<DmaBufFormat>)
    ensures
        match preferred(formats@) {
            Some((fourcc, modifier)) => {
                &&& format == allocation_format(fourcc, modifier, is_drm_format(fourcc))
                &&& fourcc == DRM_FORMAT_XRGB8888 || fourcc == DRM_FORMAT_ARGB8888 ==> format is Some
            },
            None => format is None,
        },
{
    match pick_format(formats) {
        Some((fourcc, modifier)) => {
            let known: bool = drm_format_exists(fourcc);
            dmabuf_format_of(fourcc, modifier, known)
        },
        None => None,
    }
}

/// How a DMA-BUF is described to the compositor.
#[derive(Clone, Copy, Debug, PartialEq, Eq, Structural)]
pub struct DmaBufParams {
    pub plane_idx: u32,
    pub offset: u32,
    pub stride: u32,
    pub modifier_hi: u32,
    pub modifier_lo: u32,
    pub width: i32,
    pub height: i32,
    pub fourcc: u32,
}

/// A buffer in GPU memory, which the compositor writes pixels to directly. It is
/// held by the file descriptor `fd`; `egl_image` is made when it is first needed.
#[derive(Debug, PartialEq, Eq)]
pub struct DmaBufBuffer<F, I, B> {
    pub fd: F,
    pub width: u32,
    pub height: u32,
    pub stride: u32,
    pub offset: u32,
    pub modifier: u64,
    pub fourcc: u32,
    pub egl_image: Option<I>,
    pub wl_buffer: B,
}

/// A buffer in shared memory `mem`, a pool's, which the compositor copies pixels
/// to.
#[derive(Debug, PartialEq, Eq)]
pub struct ShmBuffer<M, P, B> {
    pub wl_pool: P,
    pub wl_buffer: B,
    pub mem: M,
    pub size: usize,
    pub width: u32,
    pub height: u32,
    pub stride: u32,
    pub gl_format: u32,
}

/// A buffer of either kind.
#[derive(Debug, PartialEq, Eq)]
pub enum AppBuffer<F, I, M, P, B> {
    DmaBuf(DmaBufBuffer<F, I, B>),
    Shm(ShmBuffer<M, P, B>),
}

impl<F, I, M, P, B> AppBuffer<F, I, M, P, B> {
    /// The Wayland buffer of it.
    pub fn wl_buffer(&self) -> (buffer: &B)
        ensures
            *buffer == match self {
                AppBuffer::DmaBuf(b) => b.wl_buffer,
                AppBuffer::Shm(b) => b.wl_buffer,
            },
    {
        match self {
            AppBuffer::DmaBuf(b) => &b.wl_buffer,
            AppBuffer::Shm(b) => &b.wl_buffer,
        }
    }
}

/// Describes a buffer object, with the stride, offset and modifier that it got,
/// to the compositor.
pub fn dmabuf_params(
    width: u32,
    height: u32,
    fourcc: u32,
    stride: u32,
    offset: u32,
    modifier: u64,
) -> (params: DmaBufParams)
    ensures
        params.plane_idx == 0,
        params.offset == offset,
        params.stride == stride,
        params.modifier_hi == modifier_hi(modifier),
        params.modifier_lo == modifier_lo(modifier),
        params.width == as_signed(width),
        params.height == as_signed(height),
        params.fourcc == fourcc,
        params.modifier_hi * 0x1_0000_0000 + params.modifier_lo == modifier,
        width < 0x8000_0000 ==> params.width == width,
        height < 0x8000_0000 ==> params.height == height,
{
    let (modifier_hi, modifier_lo) = split_modifier(modifier);
    DmaBufParams {
        plane_idx: 0,
        offset,
        stride,
        modifier_hi,
        modifier_lo,
        width: to_signed(width),
        height: to_signed(height),
        fourcc,
    }
}

impl<F, I, B> DmaBufBuffer<F, I, B> {
    /// A new buffer has no EGL image yet.
    pub fn new(
        fd: F,
        width: u32,
        height: u32,
        fourcc: u32,
        stride: u32,
        offset: u32,
        modifier: u64,
        wl_buffer: B,
    ) -> (buffer: Self)
        ensures
            buffer == (DmaBufBuffer::<F, I, B> {
                fd,
                width,
                height,
                stride,
                offset,
                modifier,
                fourcc,
                egl_image: None,
                wl_buffer,
            }),
    {
        DmaBufBuffer {
            fd,
            width,
            height,
            stride,
            offset,
            modifier,
            fourcc,
            egl_image: None,
            wl_buffer,
        }
    }

    /// Whether an EGL image has still to be made.
    pub fn needs_egl_image(&self) -> (needs: bool)
        ensures
            needs == (self.egl_image is None),
    {
        self.egl_image.is_none()
    }

    /// The attributes that import it as an EGL image; `fd` is the number of its
    /// file descriptor.
    pub fn image_attribs(&self, fd: i32) -> (attribs: Vec<usize>)
        ensures
            attribs@ == dmabuf_attrib_list(
                self.width,
                self.height,
                self.fourcc,
                fd,
                self.offset,
                self.stride,
                self.modifier,
            ),
    {
        dmabuf_attribs(
            self.width,
            self.height,
            self.fourcc,
            fd,
            self.offset,
            self.stride,
            self.modifier,
        )
    }
}

/// A buffer `pre` that is asked for its image, with `made` for one if it has none,
/// becomes `post` and gives `image`.
pub open spec fn image_step<F, I, B>(
    pre: DmaBufBuffer<F, I, B>,
    made: Option<I>,
    post: DmaBufBuffer<F, I, B>,
    image: Option<I>,
) -> bool {
    &&& image == if pre.egl_image is Some {
        pre.egl_image
    } else {
        made
    }
    &&& post == (DmaBufBuffer::<F, I, B> { egl_image: image, ..pre })
}

/// A buffer that has given an image gives the same one from then on, whatever is
/// made later; one for which none could be made takes the next that can. Nothing
/// but the image changes.
pub proof fn lemma_image_is_made_once<F, I, B>(
    pre: DmaBufBuffer<F, I, B>,
    made: Option<I>,
    between: DmaBufBuffer<F, I, B>,
    image: Option<I>,
    made_later: Option<I>,
    post: DmaBufBuffer<F, I, B>,
    later: Option<I>,
)
    requires
        image_step(pre, made, between, image),
        image_step(between, made_later, post, later),
    ensures
        image is Some ==> later == image && post == between,
        image is None ==> later == made_later,
        pre.egl_image is Some ==> image == pre.egl_image,
        pre.egl_image is None ==> image == made,
        between == (DmaBufBuffer::<F, I, B> { egl_image: image, ..pre }),
{
}

/// Gives the buffer's EGL image. If it has none, it is given `made`, the image
/// that was made for it; that is `None` if making it failed, and then the next
/// call can try again. An image that is there already is kept.
pub fn ensure_egl_image<F, I: Copy, B>(
    buf: &mut DmaBufBuffer<F, I, B>,
    made: Option<I>,
) -> (image: Option<I>)
    ensures
        image == if old(buf).egl_image is Some {
            old(buf).egl_image
        } else {
            made
        },
        *final(buf) == (DmaBufBuffer::<F, I, B> { egl_image: image, ..*old(buf) }),
        image_step(*old(buf), made, *final(buf), image),
{
    if let Some(image) = buf.egl_image {
        return Some(image);
    }
    buf.egl_image = made;
    made
}

/// How a shared-memory buffer is laid out, and described to the compositor.
#[derive(Clone, Copy, Debug, PartialEq, Eq, Structural)]
pub struct ShmLayout {
    /// The `wl_shm` code of its format.
    pub wl_format: u32,
    pub gl_format: u32,
    pub width: u32,
    pub height: u32,
    /// Bytes in a row, and in all.
    pub stride: u32,
    pub size: usize,
    /// The same as the protocol has them, in signed numbers of 32 bits. Above
    /// `i32::MAX` the bytes come out negative there.
    pub pool_size: i32,
    pub buffer_width: i32,
    pub buffer_height: i32,
    pub buffer_stride: i32,
}

/// A format of which OpenGL can read the pixels.
pub open spec fn is_gl_compatible(code: u32) -> bool {
    code == WL_SHM_FORMAT_ARGB8888 || code == WL_SHM_FORMAT_XRGB8888
}

/// The first of the formats that OpenGL can read, or XRGB8888 if there is none.
pub open spec fn shm_format_for(formats: Seq<u32>) -> u32
    decreases formats.len(),
{
    if formats.len() == 0 {
        WL_SHM_FORMAT_XRGB8888
    } else if is_gl_compatible(formats.first()) {
        formats.first()
    } else {
        shm_format_for(formats.drop_first())
    }
}

/// Whether the Wayland protocol lists a shared-memory format of this code.
pub uninterp spec fn is_shm_format(code: u32) -> bool;

/// Calls `wayland_client::protocol::wl_shm::Format::try_from`, which succeeds on
/// the codes that the protocol lists, with the format of that code; the format is
/// handed back as its code. The list is long and is not restated; that ARGB8888
/// and XRGB8888 are on it is.
#[verifier::external_body]
fn shm_format_code(code: u32) -> (found: Option<u32>)
    ensures
        found is Some <==> is_shm_format(code),
        found matches Some(c) ==> c == code,
        is_gl_compatible(code) ==> found is Some,
{
    wayland_client::protocol::wl_shm::Format::try_from(code).ok().map(u32::from)
}

/// The format code to use, given the one that the protocol lists, if any:
/// XRGB8888 stands in for one that it does not list.
pub fn shm_format_or_default(found: Option<u32>) -> (code: u32)
    ensures
        code == match found {
            Some(listed) => listed,
            None => WL_SHM_FORMAT_XRGB8888,
        },
{
    match found {
        Some(listed) => listed,
        None => WL_SHM_FORMAT_XRGB8888,
    }
}

/// The format code that the protocol is given: the one asked for, or XRGB8888
/// where the protocol does not list it.
pub fn protocol_shm_format(code: u32) -> (listed: u32)
    ensures
        listed == if is_shm_format(code) {
            code
        } else {
            WL_SHM_FORMAT_XRGB8888
        },
        is_gl_compatible(code) ==> listed == code,
        listed == code || listed == 1,
        code == 0 ==> listed == 0,
{
    shm_format_or_default(shm_format_code(code))
}

/// The formats that OpenGL can read are the two with the codes 0 and 1.
pub proof fn lemma_gl_compatible(code: u32)
    ensures
        is_gl_compatible(code) <==> code == 0 || code == 1,
{
}

/// The first format with one of the codes 0 and 1 is taken, whatever is before it
/// and behind it; where there is none, the code is 1.
pub proof fn lemma_first_readable_format_is_taken(formats: Seq<u32>, i: int)
    requires
        0 <= i <= formats.len(),
        forall|j: int| 0 <= j < i ==> #[trigger] formats[j] > 1,
    ensures
        i < formats.len() && formats[i] <= 1 ==> shm_format_for(formats) == formats[i],
        i == formats.len() ==> shm_format_for(formats) == 1,
    decreases formats.len(),
{
    if i > 0 {
        let rest = formats.drop_first();
        assert(formats[0] > 1);
        assert forall|j: int| 0 <= j < i - 1 implies #[trigger] rest[j] > 1 by {
            assert(formats[j + 1] > 1);
        }
        lemma_first_readable_format_is_taken(rest, i - 1);
        if i < formats.len() {
            assert(rest[i - 1] == formats[i]);
        }
    }
}

fn find_shm_format(formats: &[u32]) -> (code: u32)
    ensures
        code == shm_format_for(formats@),
        is_gl_compatible(code),
{
    let mut i: usize = 0;
    assert(formats@.skip(0) =~= formats@);
    while i < formats.len()
        invariant
            i <= formats@.len(),
            shm_format_for(formats@) == shm_format_for(formats@.skip(i as int)),
        decreases formats@.len() - i,
    {
        let code: u32 = formats[i];
        assert(formats@.skip(i as int).first() == code);
        assert(formats@.skip(i as int).drop_first() =~= formats@.skip(i + 1));
        if code == WL_SHM_FORMAT_ARGB8888 || code == WL_SHM_FORMAT_XRGB8888 {
            return code;
        }
        i += 1;
    }
    WL_SHM_FORMAT_XRGB8888
}

/// Lays out a shared-memory buffer of `width` by `height` pixels of four bytes,
/// in one of the formats that are advertised. It may not be empty, and its size
/// has to fit 32 bits.
pub fn shm_layout(width: u32, height: u32, shm_formats: &[u32]) -> (layout: ShmLayout)
    requires
        width > 0,
        height > 0,
        width * 4 * height <= u32::MAX,
    ensures
        layout.wl_format == shm_format_for(shm_formats@),
        is_gl_compatible(layout.wl_format),
        layout.wl_format == 0 || layout.wl_format == 1,
        layout.gl_format == GL_BGRA_EXT,
        layout.gl_format == 0x80E1,
        layout.width == width,
        layout.height == height,
        layout.stride == width * 4,
        layout.size == width * 4 * height,
        layout.pool_size == as_signed(layout.size as u32),
        layout.buffer_width == width,
        layout.buffer_height == height,
        layout.buffer_stride == as_signed(layout.stride),
        layout.size <= i32::MAX ==> layout.pool_size == layout.size && layout.buffer_stride
            == layout.stride,
{
    assert(width * 4 <= width * 4 * height) by (nonlinear_arith)
        requires
            width > 0,
            height > 0,
    ;
    assert(height * 4 <= width * 4 * height) by (nonlinear_arith)
        requires
            width > 0,
            height > 0,
    ;
    let code: u32 = find_shm_format(shm_formats);
    let stride: u32 = width * 4;
    let size: u32 = stride * height;
    ShmLayout {
        wl_format: protocol_shm_format(code),
        gl_format: GL_BGRA_EXT,
        width,
        height,
        stride,
        size: size as usize,
        pool_size: to_signed(size),
        buffer_width: width as i32,
        buffer_height: height as i32,
        buffer_stride: to_signed(stride),
    }
}

impl<M, P, B> ShmBuffer<M, P, B> {
    /// The buffer that was laid out as `layout`, in the memory `mem` of `wl_pool`.
    pub fn new(wl_pool: P, wl_buffer: B, mem: M, layout: ShmLayout) -> (buffer: Self)
        ensures
            buffer == (ShmBuffer::<M, P, B> {
                wl_pool,
                wl_buffer,
                mem,
                size: layout.size,
                width: layout.width,
                height: layout.height,
                stride: layout.stride,
                gl_format: layout.gl_format,
            }),
    {
        ShmBuffer {
            wl_pool,
            wl_buffer,
            mem,
            size: layout.size,
            width: layout.width,
            height: layout.height,
            stride: layout.stride,
            gl_format: layout.gl_format,
        }
    }
}

/// The rows of a layout are next to each other, and the last byte of the last
/// pixel is the last byte of the buffer.
pub proof fn lemma_shm_rows(width: u32, height: u32, x: int, y: int)
    requires
        0 <= x < width,
        0 <= y < height,
    ensures
        0 <= y * (width * 4) + x * 4,
        y * (width * 4) + x * 4 + 4 <= width * 4 * height,
        x + 1 == width ==> y * (width * 4) + x * 4 + 4 == (y + 1) * (width * 4),
{
    assert(y * (width * 4) >= 0) by (nonlinear_arith)
        requires
            y >= 0,
    ;
    assert((y + 1) * (width * 4) <= width * 4 * height) by (nonlinear_arith)
        requires
            y + 1 <= height,
    ;
    assert((y + 1) * (width * 4) == y * (width * 4) + width * 4) by (nonlinear_arith);
}

} // verus!
