//! The PipeWire side: which video formats and buffers are offered, and what
//! becomes of a negotiated format and of a buffer that arrives.
use vstd::prelude::*;
use vstd::slice::{slice_subrange, slice_to_vec};

use crate::state::{CaptureState, DmaBufFrame, Frame, ShmFrame, DRM_FORMAT_XRGB8888, GL_RGBA};

verus! {

/// GL_BGRA_EXT: byte order is B G R A in memory on little-endian.
pub const GL_BGRA_EXT: u32 = 0x80E1;

pub const DRM_FORMAT_ARGB8888: u32 = 0x34325241;

pub const DRM_FORMAT_XBGR8888: u32 = 0x34324258;

pub const DRM_FORMAT_ABGR8888: u32 = 0x34324241;

/// DRM_FORMAT_MOD_INVALID signals "any modifier is accepted". Compositors want
/// to see it before they choose DMA-BUF transport over shared memory.
pub const DRM_FORMAT_MOD_INVALID: i64 = 0x00ff_ffff_ffff_ffff;

/// Bit numbers of SPA's buffer data types.
pub const SPA_DATA_MEM_FD: u32 = 2;

pub const SPA_DATA_DMA_BUF: u32 = 3;

/// PipeWire's raw video formats, as far as they are told apart here.
#[derive(Clone, Copy, Debug, PartialEq, Eq, Structural)]
pub enum VideoFormat {
    BGRx,
    BGRA,
    RGBx,
    RGBA,
    Other,
}

/// The DRM format code of four characters.
pub open spec fn fourcc_code(a: char, b: char, c: char, d: char) -> int {
    a as int + b as int * 0x100 + c as int * 0x1_0000 + d as int * 0x100_0000
}

/// The DRM format that a video format's pixels are in. DRM names the
/// components from the highest byte of a little-endian word down, so the order
/// is turned round.
pub open spec fn drm_fourcc_of(fmt: VideoFormat) -> int {
    match fmt {
        VideoFormat::BGRx => fourcc_code('X', 'R', '2', '4'),
        VideoFormat::BGRA => fourcc_code('A', 'R', '2', '4'),
        VideoFormat::RGBx => fourcc_code('X', 'B', '2', '4'),
        VideoFormat::RGBA => fourcc_code('A', 'B', '2', '4'),
        VideoFormat::Other => fourcc_code('X', 'R', '2', '4'),
    }
}

/// Maps a video format to its DRM format code.
pub fn video_format_to_drm_fourcc(fmt: VideoFormat) -> (fourcc: u32)
    ensures
        fourcc == drm_fourcc_of(fmt),
        fmt is BGRx || fmt is Other ==> fourcc == 0x3432_5258,
        fmt is BGRA ==> fourcc == 0x3432_5241,
        fmt is RGBx ==> fourcc == 0x3432_4258,
        fmt is RGBA ==> fourcc == 0x3432_4241,
{
    match fmt {
        VideoFormat::BGRx => DRM_FORMAT_XRGB8888,
        VideoFormat::BGRA => DRM_FORMAT_ARGB8888,
        VideoFormat::RGBx => DRM_FORMAT_XBGR8888,
        VideoFormat::RGBA => DRM_FORMAT_ABGR8888,
        VideoFormat::Other => DRM_FORMAT_XRGB8888,
    }
}

/// The OpenGL pixel format of a video format: R G B A order for the two formats
/// that begin with red, B G R A for all others.
pub open spec fn gl_format_of(fmt: VideoFormat) -> u32 {
    if fmt is RGBA || fmt is RGBx {
        GL_RGBA
    } else {
        GL_BGRA_EXT
    }
}

fn video_format_to_gl(fmt: VideoFormat) -> (gl_format: u32)
    ensures
        gl_format == gl_format_of(fmt),
        fmt is RGBA || fmt is RGBx ==> gl_format == 0x1908,
        !(fmt is RGBA || fmt is RGBx) ==> gl_format == 0x80E1,
{
    match fmt {
        VideoFormat::RGBA | VideoFormat::RGBx => GL_RGBA,
        _ => GL_BGRA_EXT,
    }
}

/// A format code gives its four characters back, one in each byte, the first in
/// the lowest.
pub proof fn lemma_fourcc_bytes(a: char, b: char, c: char, d: char)
    requires
        (a as int) < 0x100,
        (b as int) < 0x100,
        (c as int) < 0x100,
        (d as int) < 0x100,
    ensures
        fourcc_code(a, b, c, d) % 0x100 == a as int,
        fourcc_code(a, b, c, d) / 0x100 % 0x100 == b as int,
        fourcc_code(a, b, c, d) / 0x1_0000 % 0x100 == c as int,
        fourcc_code(a, b, c, d) / 0x100_0000 == d as int,
{
    let code: int = fourcc_code(a, b, c, d);
    assert(code == a as int + 0x100 * (b as int + 0x100 * (c as int + 0x100 * (d as int))));
    assert(code / 0x100 == b as int + 0x100 * (c as int + 0x100 * (d as int)));
    assert(code / 0x1_0000 == c as int + 0x100 * (d as int));
}

/// What the code of a video format says: `A` for an alpha channel and `X` for
/// none, `B` where red comes first in memory and `R` where blue does, and 24 bits
/// of colour. OpenGL is told the same order. A format that is not known is taken
/// for the preferred one.
pub proof fn lemma_format_codes(fmt: VideoFormat)
    ensures
        drm_fourcc_of(fmt) % 0x100 == if fmt is BGRA || fmt is RGBA {
            'A' as int
        } else {
            'X' as int
        },
        drm_fourcc_of(fmt) / 0x100 % 0x100 == if fmt is RGBx || fmt is RGBA {
            'B' as int
        } else {
            'R' as int
        },
        drm_fourcc_of(fmt) / 0x1_0000 % 0x100 == '2' as int,
        drm_fourcc_of(fmt) / 0x100_0000 == '4' as int,
        fmt is RGBx || fmt is RGBA ==> gl_format_of(fmt) == 0x1908,
        fmt is BGRx || fmt is BGRA || fmt is Other ==> gl_format_of(fmt) == 0x80E1,
{
}

/// The four formats that are offered are told apart by their DRM codes, and the
/// OpenGL format follows from the code alone: it is RGBA just where the second
/// character of the code is `B`.
pub proof fn lemma_formats_agree(a: VideoFormat, b: VideoFormat)
    ensures
        a !is Other && b !is Other && drm_fourcc_of(a) == drm_fourcc_of(b) ==> a == b,
        drm_fourcc_of(a) == drm_fourcc_of(b) ==> gl_format_of(a) == gl_format_of(b),
        gl_format_of(a) == GL_RGBA <==> drm_fourcc_of(a) / 0x100 % 0x100 == 'B' as int,
{
}

/// What a parameter object describes.
#[derive(Clone, Copy, Debug, PartialEq, Eq, Structural)]
pub enum PodObjectType {
    ParamBuffers,
    ParamFormat,
}

/// The parameter that an object is offered for.
#[derive(Clone, Copy, Debug, PartialEq, Eq, Structural)]
pub enum PodParam {
    Buffers,
    EnumFormat,
}

/// The key of a property.
#[derive(Clone, Copy, Debug, PartialEq, Eq, Structural)]
pub enum PodKey {
    BuffersDataType,
    MediaType,
    MediaSubtype,
    VideoFormat,
    VideoModifier,
}

/// The value of a property.
#[derive(Debug, PartialEq, Eq)]
pub enum PodValue {
    Int(i32),
    /// The media type "video".
    Video,
    /// The media subtype "raw".
    Raw,
    /// One of several formats, `format` by default.
    FormatChoice { format: VideoFormat, formats: Vec<VideoFormat> },
    /// One of several long integers, `long` by default.
    LongChoice { long: i64, longs: Vec<i64> },
}

/// A property, without flags.
#[derive(Debug, PartialEq, Eq)]
pub struct PodProperty {
    pub key: PodKey,
    pub value: PodValue,
}

/// A parameter object as it is offered to PipeWire, before it is serialised.
#[derive(Debug, PartialEq, Eq)]
pub struct PodObject {
    pub type_: PodObjectType,
    pub id: PodParam,
    pub properties: Vec<PodProperty>,
}

/// The buffer data types asked for, one bit each: DMA-BUF and memfd, no other.
pub open spec fn data_type_mask() -> nat {
    vstd::arithmetic::power2::pow2(SPA_DATA_DMA_BUF as nat)
        + vstd::arithmetic::power2::pow2(SPA_DATA_MEM_FD as nat)
}

/// An object is the offer of buffers.
pub open spec fn is_buffers_offer(obj: PodObject) -> bool {
    &&& obj.type_ is ParamBuffers
    &&& obj.id is Buffers
    &&& obj.properties@.len() == 1
    &&& obj.properties@[0].key is BuffersDataType
    &&& obj.properties@[0].value matches PodValue::Int(mask)
    &&& mask == data_type_mask()
}

/// The offer of buffers says one thing: that the data may be in a DMA-BUF, which
/// is bit 3, or in a memfd, which is bit 2, and in nothing else.
pub proof fn lemma_buffers_offer(obj: PodObject)
    requires
        is_buffers_offer(obj),
    ensures
        obj.type_ == PodObjectType::ParamBuffers,
        obj.id == PodParam::Buffers,
        obj.properties@ == seq![
            PodProperty { key: PodKey::BuffersDataType, value: PodValue::Int(12) },
        ],
{
    vstd::arithmetic::power2::lemma2_to64();
    assert(obj.properties@ =~= seq![
        PodProperty { key: PodKey::BuffersDataType, value: PodValue::Int(12) },
    ]);
}

/// The offer of buffers: DMA-BUF transport, so that the compositor can share
/// its GPU buffer without a copy, or shared memory.
pub fn build_buffers_pod() -> (obj: PodObject)
    ensures
        is_buffers_offer(obj),
        obj.properties@[0].value == PodValue::Int(12),
{
    proof {
        vstd::arithmetic::power2::lemma2_to64();
        assert(1i32 << 3u32 | 1i32 << 2u32 == 12) by (bit_vector);
    }
    let mask: i32 = (1i32 << SPA_DATA_DMA_BUF) | (1i32 << SPA_DATA_MEM_FD);
    PodObject {
        type_: PodObjectType::ParamBuffers,
        id: PodParam::Buffers,
        properties: vec![
            PodProperty { key: PodKey::BuffersDataType, value: PodValue::Int(mask) },
        ],
    }
}

/// The video formats on offer, the preferred one first.
pub open spec fn offered_formats() -> Seq<VideoFormat> {
    seq![VideoFormat::BGRx, VideoFormat::BGRA, VideoFormat::RGBx, VideoFormat::RGBA]
}

/// An object is the offer of video formats.
pub open spec fn is_format_offer(obj: PodObject) -> bool {
    &&& obj.type_ is ParamFormat
    &&& obj.id is EnumFormat
    &&& obj.properties@.len() == 4
    &&& obj.properties@[0].key is MediaType
    &&& obj.properties@[0].value is Video
    &&& obj.properties@[1].key is MediaSubtype
    &&& obj.properties@[1].value is Raw
    &&& obj.properties@[2].key is VideoFormat
    &&& obj.properties@[2].value matches PodValue::FormatChoice { format, formats }
    &&& format is BGRx
    &&& formats@ == offered_formats()
    &&& obj.properties@[3].key is VideoModifier
    &&& obj.properties@[3].value matches PodValue::LongChoice { long, longs }
    &&& long == DRM_FORMAT_MOD_INVALID
    &&& longs@ == seq![DRM_FORMAT_MOD_INVALID]
}

/// The offer of formats says of raw video that it may come in each of the four
/// formats with blue or red first and with or without alpha, best without alpha
/// and blue first, and with any modifier.
pub proof fn lemma_format_offer(obj: PodObject)
    requires
        is_format_offer(obj),
    ensures
        obj.type_ == PodObjectType::ParamFormat,
        obj.id == PodParam::EnumFormat,
        obj.properties@.len() == 4,
        obj.properties@[0] == (PodProperty { key: PodKey::MediaType, value: PodValue::Video }),
        obj.properties@[1] == (PodProperty { key: PodKey::MediaSubtype, value: PodValue::Raw }),
        obj.properties@[2].key == PodKey::VideoFormat,
        obj.properties@[2].value matches PodValue::FormatChoice { format, formats } && {
            &&& format == VideoFormat::BGRx
            &&& formats@.len() == 4
            &&& formats@[0] == VideoFormat::BGRx
            &&& formats@[1] == VideoFormat::BGRA
            &&& formats@[2] == VideoFormat::RGBx
            &&& formats@[3] == VideoFormat::RGBA
        },
        obj.properties@[3].key == PodKey::VideoModifier,
        obj.properties@[3].value matches PodValue::LongChoice { long, longs } && {
            &&& long == 0x00ff_ffff_ffff_ffff
            &&& longs@.len() == 1
            &&& longs@[0] == 0x00ff_ffff_ffff_ffff
        },
{
}

/// The offer of video formats: raw video in any of four 32-bit formats, with
/// any modifier.
pub fn build_video_format_pod() -> (obj: PodObject)
    ensures
        is_format_offer(obj),
{
    let formats: Vec<VideoFormat> = vec![
        VideoFormat::BGRx,
        VideoFormat::BGRA,
        VideoFormat::RGBx,
        VideoFormat::RGBA,
    ];
    let modifiers: Vec<i64> = vec![DRM_FORMAT_MOD_INVALID];
    assert(formats@ =~= offered_formats());
    assert(modifiers@ =~= seq![DRM_FORMAT_MOD_INVALID]);
    PodObject {
        type_: PodObjectType::ParamFormat,
        id: PodParam::EnumFormat,
        properties: vec![
            PodProperty { key: PodKey::MediaType, value: PodValue::Video },
            PodProperty { key: PodKey::MediaSubtype, value: PodValue::Raw },
            PodProperty {
                key: PodKey::VideoFormat,
                value: PodValue::FormatChoice { format: VideoFormat::BGRx, formats },
            },
            PodProperty {
                key: PodKey::VideoModifier,
                value: PodValue::LongChoice { long: DRM_FORMAT_MOD_INVALID, longs: modifiers },
            },
        ],
    }
}

/// A negotiated video format.
#[derive(Clone, Copy, Debug, PartialEq, Eq, Structural)]
pub struct VideoInfo {
    pub format: VideoFormat,
    pub width: u32,
    pub height: u32,
    pub modifier: u64,
}

/// A change of a stream parameter.
#[derive(Clone, Copy, Debug, PartialEq, Eq, Structural)]
pub enum ParamChange {
    /// Of another parameter than the format.
    Other,
    /// The format was taken away.
    Cleared,
    /// The format could not be read as raw video.
    Unreadable,
    Format(VideoInfo),
}

/// What kind of memory a buffer's data is in.
#[derive(Clone, Copy, Debug, PartialEq, Eq, Structural)]
pub enum DataType {
    DmaBuf,
    MemFd,
    MemPtr,
    Other,
}

/// The first data of a buffer: its kind and its chunk.
#[derive(Clone, Copy, Debug, PartialEq, Eq, Structural)]
pub struct BufferData {
    pub data_type: DataType,
    pub offset: u32,
    pub size: u32,
    pub stride: i32,
}

/// What has to be fetched before a buffer can become a frame.
#[derive(Clone, Copy, Debug, PartialEq, Eq, Structural)]
pub enum ProcessStep {
    /// Nothing: the buffer is passed over.
    Skip,
    /// A duplicate of the data's file descriptor.
    DuplicateFd,
    /// The data's mapped bytes.
    MapBytes,
}

/// What became of a buffer.
#[derive(Clone, Copy, Debug, PartialEq, Eq, Structural)]
pub enum Stored {
    /// It was passed over.
    No,
    /// It is the current frame; `first` if there was none before.
    Yes { first: bool },
}

/// A DMA-BUF frame says of itself what was negotiated last before it came, not
/// what is negotiated later.
pub proof fn lemma_frame_keeps_its_format<F>(
    cap: CaptureState<F>,
    info: VideoInfo,
    data: BufferData,
    fd: F,
    later: VideoInfo,
)
    ensures
        cap.with_format(info).with_dmabuf(data, fd).with_format(later).frame == Some(
            Frame::DmaBuf(
                DmaBufFrame {
                    fd,
                    width: info.width,
                    height: info.height,
                    fourcc: drm_fourcc_of(info.format) as u32,
                    modifier: info.modifier,
                    offset: data.offset,
                    stride: data.stride as u32,
                },
            ),
        ),
{
}

/// A format that is negotiated is taken over whole, whatever there was before;
/// the frame at hand, and whether it has been shown, stay as they are.
pub proof fn lemma_format_is_taken_over<F>(cap: CaptureState<F>, info: VideoInfo)
    ensures
        cap.with_format(info).width == info.width,
        cap.with_format(info).height == info.height,
        cap.with_format(info).modifier == info.modifier,
        cap.with_format(info).frame == cap.frame,
        cap.with_format(info).frame_ready == cap.frame_ready,
        info.format is RGBA || info.format is RGBx ==> cap.with_format(info).gl_format == 0x1908,
        !(info.format is RGBA || info.format is RGBx) ==> cap.with_format(info).gl_format
            == 0x80E1,
        info.format is BGRx || info.format is Other ==> cap.with_format(info).fourcc
            == 0x3432_5258,
        info.format is BGRA ==> cap.with_format(info).fourcc == 0x3432_5241,
        info.format is RGBx ==> cap.with_format(info).fourcc == 0x3432_4258,
        info.format is RGBA ==> cap.with_format(info).fourcc == 0x3432_4241,
{
}

/// Every DMA-BUF that is stored is the frame, and is ready to be shown, whatever
/// frame there was before and whether or not that had been shown. It has the size
/// and the format of the stream and the place and the stride of the buffer, and
/// what is remembered of the stream stays as it is.
pub proof fn lemma_stored_dmabuf_is_ready<F>(cap: CaptureState<F>, data: BufferData, fd: F)
    ensures
        cap.with_dmabuf(data, fd).frame_ready,
        cap.with_dmabuf(data, fd).frame matches Some(Frame::DmaBuf(frame)) && {
            &&& frame.fd == fd
            &&& frame.width == cap.width
            &&& frame.height == cap.height
            &&& frame.fourcc == cap.fourcc
            &&& frame.modifier == cap.modifier
            &&& frame.offset == data.offset
            &&& frame.stride == data.stride as u32
            &&& data.stride >= 0 ==> frame.stride == data.stride
        },
        cap.with_dmabuf(data, fd).width == cap.width,
        cap.with_dmabuf(data, fd).height == cap.height,
        cap.with_dmabuf(data, fd).gl_format == cap.gl_format,
        cap.with_dmabuf(data, fd).fourcc == cap.fourcc,
        cap.with_dmabuf(data, fd).modifier == cap.modifier,
{
}

/// Of two DMA-BUFs in a row the later one is the frame, as if the earlier one had
/// not come.
pub proof fn lemma_last_dmabuf_counts<F>(
    cap: CaptureState<F>,
    data: BufferData,
    fd: F,
    later: BufferData,
    later_fd: F,
)
    ensures
        cap.with_dmabuf(data, fd).with_dmabuf(later, later_fd) == cap.with_dmabuf(later, later_fd),
{
}

/// A frame from shared memory is ready to be shown, whatever was before it. Byte
/// for byte it is what was there, as far as the chunk says and as there is any,
/// and it has the size that was negotiated.
pub proof fn lemma_stored_copy_is_ready<F>(
    before: CaptureState<F>,
    after: CaptureState<F>,
    size: u32,
    bytes: Seq<u8>,
)
    requires
        after.holds_copy(&before, size, bytes),
    ensures
        after.frame_ready,
        after.frame matches Some(Frame::Shm(frame)) && {
            &&& frame.width == before.width
            &&& frame.height == before.height
            &&& frame.data@.len() <= size
            &&& frame.data@.len() <= bytes.len()
            &&& frame.data@.len() == size || frame.data@.len() == bytes.len()
            &&& forall|i: int|
                0 <= i < frame.data@.len() ==> #[trigger] frame.data@[i] == bytes[i]
        },
        after.width == before.width,
        after.height == before.height,
        after.gl_format == before.gl_format,
        after.fourcc == before.fourcc,
        after.modifier == before.modifier,
{
}

/// Which buffers become frames: none before a picture that is not empty has been
/// negotiated; then every DMA-BUF, even one whose chunk is said to be empty, and
/// all memory with something in it; never data of another kind.
pub proof fn lemma_which_buffers_become_frames<F>(cap: CaptureState<F>, data: BufferData)
    ensures
        cap.step_for(None) == ProcessStep::Skip,
        cap.width == 0 || cap.height == 0 ==> cap.step_for(Some(data)) == ProcessStep::Skip,
        cap.width != 0 && cap.height != 0 ==> {
            &&& data.data_type is DmaBuf ==> cap.step_for(Some(data)) == ProcessStep::DuplicateFd
            &&& (data.data_type is MemFd || data.data_type is MemPtr) && data.size != 0
                ==> cap.step_for(Some(data)) == ProcessStep::MapBytes
            &&& (data.data_type is MemFd || data.data_type is MemPtr) && data.size == 0
                ==> cap.step_for(Some(data)) == ProcessStep::Skip
            &&& data.data_type is Other ==> cap.step_for(Some(data)) == ProcessStep::Skip
        },
{
}

/// Two states have the same format if they agree on all that was negotiated.
pub proof fn lemma_same_format<F>(a: CaptureState<F>, b: CaptureState<F>)
    ensures
        a.same_format(&b) <==> a.width == b.width && a.height == b.height && a.gl_format
            == b.gl_format && a.fourcc == b.fourcc && a.modifier == b.modifier,
{
}

impl<F> CaptureState<F> {
    /// A format with a non-empty picture has been negotiated.
    pub open spec fn has_size(&self) -> bool {
        self.width != 0 && self.height != 0
    }

    /// All but the frame and its flag is as in `other`.
    pub open spec fn same_format(&self, other: &Self) -> bool {
        &&& self.width == other.width
        &&& self.height == other.height
        &&& self.gl_format == other.gl_format
        &&& self.fourcc == other.fourcc
        &&& self.modifier == other.modifier
    }

    /// The state once a format is negotiated. The frame at hand stays.
    pub open spec fn with_format(self, info: VideoInfo) -> Self {
        CaptureState {
            width: info.width,
            height: info.height,
            gl_format: gl_format_of(info.format),
            fourcc: drm_fourcc_of(info.format) as u32,
            modifier: info.modifier,
            ..self
        }
    }

    /// The state once a DMA-BUF is the current frame.
    pub open spec fn with_dmabuf(self, data: BufferData, fd: F) -> Self {
        CaptureState {
            frame: Some(
                Frame::DmaBuf(
                    DmaBufFrame {
                        fd,
                        width: self.width,
                        height: self.height,
                        fourcc: self.fourcc,
                        modifier: self.modifier,
                        offset: data.offset,
                        stride: data.stride as u32,
                    },
                ),
            ),
            frame_ready: true,
            ..self
        }
    }

    /// A copy of the bytes that a chunk holds, no more than there are, is the
    /// current frame of this state, which is otherwise as `old_state` was.
    pub open spec fn holds_copy(&self, old_state: &Self, size: u32, bytes: Seq<u8>) -> bool {
        &&& self.same_format(old_state)
        &&& self.frame_ready
        &&& self.frame matches Some(Frame::Shm(frame))
        &&& frame.width == old_state.width
        &&& frame.height == old_state.height
        &&& frame.data@ == if size <= bytes.len() {
            bytes.take(size as int)
        } else {
            bytes
        }
    }

    /// What has to be fetched for a buffer, given the first data of it or, where
    /// there is no buffer or no data in it, `None`.
    pub open spec fn step_for(&self, data: Option<BufferData>) -> ProcessStep {
        if !self.has_size() || data is None {
            ProcessStep::Skip
        } else if data->0.data_type is DmaBuf {
            ProcessStep::DuplicateFd
        } else if data->0.data_type !is Other && data->0.size != 0 {
            ProcessStep::MapBytes
        } else {
            ProcessStep::Skip
        }
    }

    /// Takes over a changed stream parameter. A readable format replaces the
    /// one before, and is answered with the offer of buffers that is returned;
    /// all other changes are passed over.
    pub fn param_changed(&mut self, change: ParamChange) -> (offer: Option<PodObject>)
        ensures
            offer is Some <==> change is Format,
            offer matches Some(obj) ==> is_buffers_offer(obj),
            *final(self) == match change {
                ParamChange::Format(info) => old(self).with_format(info),
                _ => *old(self),
            },
            change matches ParamChange::Format(info) ==> {
                &&& final(self).width == info.width
                &&& final(self).height == info.height
                &&& final(self).modifier == info.modifier
                &&& final(self).frame == old(self).frame
                &&& final(self).frame_ready == old(self).frame_ready
            },
            old(self).wf() ==> final(self).wf(),
    {
        match change {
            ParamChange::Format(info) => {
                self.width = info.width;
                self.height = info.height;
                self.gl_format = video_format_to_gl(info.format);
                self.fourcc = video_format_to_drm_fourcc(info.format);
                self.modifier = info.modifier;
                Some(build_buffers_pod())
            },
            _ => None,
        }
    }

    /// Decides what has to be fetched for a buffer.
    pub fn process(&self, data: Option<BufferData>) -> (step: ProcessStep)
        ensures
            step == self.step_for(data),
            step is DuplicateFd <==> self.width != 0 && self.height != 0 && data is Some
                && data->0.data_type is DmaBuf,
            step is MapBytes <==> self.width != 0 && self.height != 0 && data is Some && (
            data->0.data_type is MemFd || data->0.data_type is MemPtr) && data->0.size != 0,
    {
        match data {
            Some(data) => {
                if self.width == 0 || self.height == 0 {
                    return ProcessStep::Skip;
                }
                match data.data_type {
                    DataType::DmaBuf => ProcessStep::DuplicateFd,
                    DataType::MemFd | DataType::MemPtr => {
                        if data.size == 0 {
                            ProcessStep::Skip
                        } else {
                            ProcessStep::MapBytes
                        }
                    },
                    DataType::Other => ProcessStep::Skip,
                }
            },
            None => ProcessStep::Skip,
        }
    }

    /// Makes a DMA-BUF the current frame, given the duplicate of its file
    /// descriptor, or `None` if duplicating failed.
    pub fn store_dmabuf(&mut self, data: BufferData, fd: Option<F>) -> (stored: Stored)
        ensures
            old(self).step_for(Some(data)) is DuplicateFd && fd is Some ==> {
                &&& stored == Stored::Yes { first: old(self).frame is None }
                &&& *final(self) == old(self).with_dmabuf(data, fd->0)
            },
            stored is Yes <==> old(self).width != 0 && old(self).height != 0
                && data.data_type is DmaBuf && fd is Some,
            stored is Yes ==> {
                &&& final(self).frame_ready
                &&& final(self).frame matches Some(Frame::DmaBuf(frame))
                &&& frame.fd == fd->0
                &&& frame.width == old(self).width
                &&& frame.height == old(self).height
                &&& frame.fourcc == old(self).fourcc
                &&& frame.modifier == old(self).modifier
                &&& frame.offset == data.offset
                &&& frame.stride == data.stride as u32
            },
            !(old(self).step_for(Some(data)) is DuplicateFd && fd is Some) ==> {
                &&& stored is No
                &&& *final(self) == *old(self)
            },
            old(self).wf() ==> final(self).wf(),
    {
        match (self.process(Some(data)), fd) {
            (ProcessStep::DuplicateFd, Some(fd)) => {
                let first: bool = self.frame.is_none();
                self.frame = Some(
                    Frame::DmaBuf(
                        DmaBufFrame {
                            fd,
                            width: self.width,
                            height: self.height,
                            fourcc: self.fourcc,
                            modifier: self.modifier,
                            offset: data.offset,
                            stride: #[verifier::truncate]
                            (data.stride as u32),
                        },
                    ),
                );
                self.frame_ready = true;
                Stored::Yes { first }
            },
            _ => Stored::No,
        }
    }

    /// Makes a copy of a shared-memory buffer the current frame, given its
    /// mapped bytes, or `None` if it is not mapped. Only the bytes of the chunk
    /// are copied, and no more than there are.
    pub fn store_shm(&mut self, data: BufferData, bytes: Option<&[u8]>) -> (stored: Stored)
        ensures
            final(self).same_format(old(self)),
            stored is Yes <==> old(self).width != 0 && old(self).height != 0 && (
            data.data_type is MemFd || data.data_type is MemPtr) && data.size != 0
                && bytes is Some,
            old(self).step_for(Some(data)) is MapBytes && bytes is Some ==> {
                &&& stored == Stored::Yes { first: old(self).frame is None }
                &&& final(self).holds_copy(old(self), data.size, bytes->0@)
                &&& final(self).frame_ready
                &&& final(self).frame matches Some(Frame::Shm(frame))
                &&& frame.width == old(self).width
                &&& frame.height == old(self).height
                &&& frame.data@ == if data.size <= bytes->0@.len() {
                    bytes->0@.take(data.size as int)
                } else {
                    bytes->0@
                }
            },
            !(old(self).step_for(Some(data)) is MapBytes && bytes is Some) ==> {
                &&& stored is No
                &&& *final(self) == *old(self)
            },
            old(self).wf() ==> final(self).wf(),
    {
        match (self.process(Some(data)), bytes) {
            (ProcessStep::MapBytes, Some(bytes)) => {
                let first: bool = self.frame.is_none();
                let size: usize = data.size as usize;
                let copy: Vec<u8> = if size <= bytes.len() {
                    slice_to_vec(slice_subrange(bytes, 0, size))
                } else {
                    slice_to_vec(bytes)
                };
                self.frame = Some(
                    Frame::Shm(ShmFrame { data: copy, width: self.width, height: self.height }),
                );
                self.frame_ready = true;
                Stored::Yes { first }
            },
            _ => Stored::No,
        }
    }
}

} // verus!
