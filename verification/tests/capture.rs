use kwaymag::capture::{
    build_buffers_pod, build_video_format_pod, video_format_to_drm_fourcc, BufferData, DataType,
    ParamChange, PodKey, PodObject, PodObjectType, PodParam, PodProperty, PodValue, ProcessStep,
    Stored, VideoFormat, VideoInfo, GL_BGRA_EXT,
};
use kwaymag::state::{CaptureState, DmaBufFrame, Frame, ShmFrame, GL_RGBA};

fn sized() -> CaptureState<i32> {
    let mut cap = CaptureState::new();
    let info = VideoInfo { format: VideoFormat::RGBA, width: 2, height: 1, modifier: 77 };
    assert!(cap.param_changed(ParamChange::Format(info)).is_some());
    cap
}

fn data(data_type: DataType, size: u32) -> BufferData {
    BufferData { data_type, offset: 16, size, stride: 8 }
}

#[test]
fn fourcc_codes() {
    assert_eq!(video_format_to_drm_fourcc(VideoFormat::BGRx), 0x34325258);
    assert_eq!(video_format_to_drm_fourcc(VideoFormat::BGRA), 0x34325241);
    assert_eq!(video_format_to_drm_fourcc(VideoFormat::RGBx), 0x34324258);
    assert_eq!(video_format_to_drm_fourcc(VideoFormat::RGBA), 0x34324241);
    assert_eq!(video_format_to_drm_fourcc(VideoFormat::Other), 0x34325258);
    assert_eq!(
        video_format_to_drm_fourcc(VideoFormat::BGRx),
        u32::from_le_bytes([b'X', b'R', b'2', b'4'])
    );
}

#[test]
fn buffers_offer_is_dmabuf_and_memfd() {
    assert_eq!(
        build_buffers_pod(),
        PodObject {
            type_: PodObjectType::ParamBuffers,
            id: PodParam::Buffers,
            properties: vec![PodProperty {
                key: PodKey::BuffersDataType,
                value: PodValue::Int(12),
            }],
        }
    );
}

#[test]
fn format_offer_is_raw_video_in_four_formats() {
    let any = 0x00ff_ffff_ffff_ffff;
    assert_eq!(
        build_video_format_pod(),
        PodObject {
            type_: PodObjectType::ParamFormat,
            id: PodParam::EnumFormat,
            properties: vec![
                PodProperty { key: PodKey::MediaType, value: PodValue::Video },
                PodProperty { key: PodKey::MediaSubtype, value: PodValue::Raw },
                PodProperty {
                    key: PodKey::VideoFormat,
                    value: PodValue::FormatChoice {
                        format: VideoFormat::BGRx,
                        formats: vec![
                            VideoFormat::BGRx,
                            VideoFormat::BGRA,
                            VideoFormat::RGBx,
                            VideoFormat::RGBA,
                        ],
                    },
                },
                PodProperty {
                    key: PodKey::VideoModifier,
                    value: PodValue::LongChoice { long: any, longs: vec![any] },
                },
            ],
        }
    );
}

#[test]
fn a_format_is_taken_over_and_answered() {
    for (format, gl_format) in [
        (VideoFormat::RGBA, GL_RGBA),
        (VideoFormat::RGBx, GL_RGBA),
        (VideoFormat::BGRA, GL_BGRA_EXT),
        (VideoFormat::BGRx, GL_BGRA_EXT),
        (VideoFormat::Other, GL_BGRA_EXT),
    ] {
        let mut cap: CaptureState<i32> = CaptureState::new();
        let info = VideoInfo { format, width: 1920, height: 1080, modifier: 5 };
        assert_eq!(cap.param_changed(ParamChange::Format(info)), Some(build_buffers_pod()));
        assert_eq!((cap.width, cap.height, cap.modifier), (1920, 1080, 5));
        assert_eq!(cap.gl_format, gl_format);
        assert_eq!(cap.fourcc, video_format_to_drm_fourcc(format));
        assert_eq!((cap.frame, cap.frame_ready), (None, false));
    }
}

#[test]
fn other_changes_are_passed_over() {
    for change in [ParamChange::Other, ParamChange::Cleared, ParamChange::Unreadable] {
        let mut cap = sized();
        assert_eq!(cap.param_changed(change), None);
        assert_eq!(cap, sized());
    }
}

#[test]
fn buffers_before_a_format_are_skipped() {
    let mut cap: CaptureState<i32> = CaptureState::new();
    for data_type in [DataType::DmaBuf, DataType::MemFd, DataType::MemPtr, DataType::Other] {
        assert_eq!(cap.process(Some(data(data_type, 8))), ProcessStep::Skip);
    }
    assert_eq!(cap.store_dmabuf(data(DataType::DmaBuf, 8), Some(3)), Stored::No);
    assert_eq!(cap.store_shm(data(DataType::MemFd, 8), Some(&[1, 2])), Stored::No);
    assert_eq!(cap, CaptureState::new());
}

#[test]
fn an_empty_picture_is_skipped() {
    for (width, height) in [(0, 4), (4, 0)] {
        let mut cap: CaptureState<i32> = CaptureState::new();
        let info = VideoInfo { format: VideoFormat::BGRx, width, height, modifier: 0 };
        cap.param_changed(ParamChange::Format(info));
        assert_eq!(cap.process(Some(data(DataType::DmaBuf, 8))), ProcessStep::Skip);
    }
}

#[test]
fn what_is_fetched_depends_on_the_kind() {
    let cap = sized();
    assert_eq!(cap.process(None), ProcessStep::Skip);
    assert_eq!(cap.process(Some(data(DataType::DmaBuf, 0))), ProcessStep::DuplicateFd);
    assert_eq!(cap.process(Some(data(DataType::MemFd, 8))), ProcessStep::MapBytes);
    assert_eq!(cap.process(Some(data(DataType::MemPtr, 8))), ProcessStep::MapBytes);
    assert_eq!(cap.process(Some(data(DataType::MemFd, 0))), ProcessStep::Skip);
    assert_eq!(cap.process(Some(data(DataType::MemPtr, 0))), ProcessStep::Skip);
    assert_eq!(cap.process(Some(data(DataType::Other, 8))), ProcessStep::Skip);
}

#[test]
fn a_dmabuf_becomes_the_frame() {
    let mut cap = sized();
    assert_eq!(cap.store_dmabuf(data(DataType::DmaBuf, 0), None), Stored::No);
    assert_eq!(cap, sized());
    assert_eq!(
        cap.store_dmabuf(data(DataType::DmaBuf, 0), Some(3)),
        Stored::Yes { first: true }
    );
    assert!(cap.frame_ready);
    let frame = Frame::DmaBuf(DmaBufFrame {
        fd: 3,
        width: 2,
        height: 1,
        fourcc: 0x34324241,
        modifier: 77,
        offset: 16,
        stride: 8,
    });
    assert_eq!(cap.frame, Some(frame));
    assert_eq!(
        cap.store_dmabuf(data(DataType::DmaBuf, 0), Some(4)),
        Stored::Yes { first: false }
    );
}

#[test]
fn a_negative_stride_is_kept_bit_by_bit() {
    let mut cap = sized();
    let bottom_up = BufferData { data_type: DataType::DmaBuf, offset: 0, size: 0, stride: -8 };
    cap.store_dmabuf(bottom_up, Some(3));
    match cap.frame {
        Some(Frame::DmaBuf(frame)) => assert_eq!(frame.stride, 0xffff_fff8),
        _ => panic!("no frame"),
    }
}

#[test]
fn shared_memory_is_copied_up_to_the_chunk() {
    let mut cap = sized();
    let bytes = [1u8, 2, 3, 4, 5, 6, 7, 8, 9];
    assert_eq!(cap.store_shm(data(DataType::MemFd, 8), None), Stored::No);
    assert_eq!(cap, sized());
    assert_eq!(
        cap.store_shm(data(DataType::MemFd, 8), Some(&bytes)),
        Stored::Yes { first: true }
    );
    assert!(cap.frame_ready);
    let frame = ShmFrame { data: vec![1, 2, 3, 4, 5, 6, 7, 8], width: 2, height: 1 };
    assert_eq!(cap.frame, Some(Frame::Shm(frame)));
    assert_eq!(
        cap.store_shm(data(DataType::MemPtr, 100), Some(&bytes[..3])),
        Stored::Yes { first: false }
    );
    let frame = ShmFrame { data: vec![1, 2, 3], width: 2, height: 1 };
    assert_eq!(cap.frame, Some(Frame::Shm(frame)));
}

#[test]
fn kinds_are_not_mixed_up() {
    let mut cap = sized();
    assert_eq!(cap.store_dmabuf(data(DataType::MemFd, 8), Some(3)), Stored::No);
    assert_eq!(cap.store_shm(data(DataType::DmaBuf, 8), Some(&[1])), Stored::No);
    assert_eq!(cap, sized());
}

#[test]
fn a_frame_keeps_its_format() {
    let mut cap = sized();
    cap.store_dmabuf(data(DataType::DmaBuf, 0), Some(3));
    let info = VideoInfo { format: VideoFormat::BGRx, width: 9, height: 9, modifier: 1 };
    cap.param_changed(ParamChange::Format(info));
    match &cap.frame {
        Some(Frame::DmaBuf(frame)) => {
            assert_eq!((frame.width, frame.height, frame.modifier), (2, 1, 77));
            assert_eq!(frame.fourcc, 0x34324241);
        }
        _ => panic!("no frame"),
    }
    assert!(cap.frame_ready);
}
