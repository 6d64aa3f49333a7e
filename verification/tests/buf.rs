use kwaymag::buf::{
    choose_dmabuf_format, dmabuf_format_of, dmabuf_params, ensure_egl_image, pick_format,
    protocol_shm_format, shm_format_or_default, shm_layout, AppBuffer, DmaBufBuffer, DmaBufFormat, DmaBufParams,
    ShmBuffer, ShmLayout, ALL_MODIFIER_BITS, WL_SHM_FORMAT_ARGB8888, WL_SHM_FORMAT_XRGB8888,
};
use kwaymag::capture::{
    DRM_FORMAT_ABGR8888, DRM_FORMAT_ARGB8888, DRM_FORMAT_MOD_INVALID, DRM_FORMAT_XBGR8888,
    GL_BGRA_EXT,
};
use kwaymag::state::DRM_FORMAT_XRGB8888;
use wayland_client::protocol::wl_shm::Format;

type Buffer = DmaBufBuffer<i32, u8, &'static str>;

#[test]
fn nothing_is_picked_of_nothing() {
    assert_eq!(pick_format(&[]), None);
    assert_eq!(choose_dmabuf_format(&[]), None);
}

#[test]
fn xrgb_is_picked_before_argb() {
    let formats = [
        (DRM_FORMAT_ABGR8888, 1),
        (DRM_FORMAT_ARGB8888, 2),
        (DRM_FORMAT_XRGB8888, 3),
        (DRM_FORMAT_XRGB8888, 4),
    ];
    assert_eq!(pick_format(&formats), Some((DRM_FORMAT_XRGB8888, 3)));
}

#[test]
fn argb_is_picked_before_the_first() {
    let formats = [(DRM_FORMAT_ABGR8888, 1), (DRM_FORMAT_ARGB8888, 2), (DRM_FORMAT_ARGB8888, 5)];
    assert_eq!(pick_format(&formats), Some((DRM_FORMAT_ARGB8888, 2)));
}

#[test]
fn otherwise_the_first_is_picked() {
    let formats = [(DRM_FORMAT_ABGR8888, 7), (DRM_FORMAT_XBGR8888, 8)];
    assert_eq!(pick_format(&formats), Some((DRM_FORMAT_ABGR8888, 7)));
}

#[test]
fn drm_codes_are_those_of_the_crate() {
    assert_eq!(DRM_FORMAT_XRGB8888, drm_fourcc::DrmFourcc::Xrgb8888 as u32);
    assert_eq!(DRM_FORMAT_ARGB8888, drm_fourcc::DrmFourcc::Argb8888 as u32);
    assert_eq!(DRM_FORMAT_XBGR8888, drm_fourcc::DrmFourcc::Xbgr8888 as u32);
    assert_eq!(DRM_FORMAT_ABGR8888, drm_fourcc::DrmFourcc::Abgr8888 as u32);
}

#[test]
fn a_known_format_can_be_allocated() {
    assert_eq!(
        choose_dmabuf_format(&[(DRM_FORMAT_XRGB8888, 0)]),
        Some(DmaBufFormat { fourcc: DRM_FORMAT_XRGB8888, modifier: Some(0) })
    );
    assert_eq!(
        choose_dmabuf_format(&[(DRM_FORMAT_ARGB8888, 9)]),
        Some(DmaBufFormat { fourcc: DRM_FORMAT_ARGB8888, modifier: Some(9) })
    );
    // NV12 is on the list of DRM formats too.
    let nv12 = drm_fourcc::DrmFourcc::Nv12 as u32;
    assert_eq!(
        choose_dmabuf_format(&[(nv12, 3)]),
        Some(DmaBufFormat { fourcc: nv12, modifier: Some(3) })
    );
}

#[test]
fn an_unknown_format_cannot_be_allocated() {
    assert_eq!(choose_dmabuf_format(&[(0, 0)]), None);
    assert_eq!(choose_dmabuf_format(&[(0x3163_7661, 0)]), None);
}

#[test]
fn without_a_modifier_allocation_is_free() {
    assert_eq!(
        choose_dmabuf_format(&[(DRM_FORMAT_XRGB8888, 0x00ff_ffff_ffff_ffff)]),
        Some(DmaBufFormat { fourcc: DRM_FORMAT_XRGB8888, modifier: None })
    );
    assert_eq!(
        choose_dmabuf_format(&[(DRM_FORMAT_XRGB8888, u64::MAX)]),
        Some(DmaBufFormat { fourcc: DRM_FORMAT_XRGB8888, modifier: None })
    );
    assert_eq!(
        choose_dmabuf_format(&[(DRM_FORMAT_XRGB8888, 0x00ff_ffff_ffff_fffe)]),
        Some(DmaBufFormat {
            fourcc: DRM_FORMAT_XRGB8888,
            modifier: Some(0x00ff_ffff_ffff_fffe),
        })
    );
    assert_eq!(DRM_FORMAT_MOD_INVALID as u64, u64::from(drm_fourcc::DrmModifier::Invalid));
    assert_eq!(ALL_MODIFIER_BITS, u64::MAX);
}

#[test]
fn allocation_follows_what_is_known() {
    assert_eq!(dmabuf_format_of(5, 6, false), None);
    assert_eq!(dmabuf_format_of(5, 6, true), Some(DmaBufFormat { fourcc: 5, modifier: Some(6) }));
    assert_eq!(
        dmabuf_format_of(5, DRM_FORMAT_MOD_INVALID as u64, true),
        Some(DmaBufFormat { fourcc: 5, modifier: None })
    );
}

#[test]
fn dmabuf_is_described_with_both_halves_of_its_modifier() {
    assert_eq!(
        dmabuf_params(640, 480, DRM_FORMAT_XRGB8888, 2560, 64, 0x0123_4567_89ab_cdef),
        DmaBufParams {
            plane_idx: 0,
            offset: 64,
            stride: 2560,
            modifier_hi: 0x0123_4567,
            modifier_lo: 0x89ab_cdef,
            width: 640,
            height: 480,
            fourcc: DRM_FORMAT_XRGB8888,
        }
    );
    let huge = dmabuf_params(u32::MAX, 0x8000_0000, 0, 0, 0, 0);
    assert_eq!((huge.width, huge.height), (-1, i32::MIN));
}

#[test]
fn an_egl_image_is_made_once() {
    let mut buf: Buffer = DmaBufBuffer::new(3, 4, 5, 6, 7, 8, 9, "buffer");
    assert!(buf.needs_egl_image());
    assert_eq!(ensure_egl_image(&mut buf, None), None);
    assert!(buf.needs_egl_image());
    assert_eq!(ensure_egl_image(&mut buf, Some(1)), Some(1));
    assert!(!buf.needs_egl_image());
    assert_eq!(ensure_egl_image(&mut buf, Some(2)), Some(1));
    assert_eq!(ensure_egl_image(&mut buf, None), Some(1));
    assert_eq!(
        buf,
        DmaBufBuffer {
            fd: 3,
            width: 4,
            height: 5,
            fourcc: 6,
            stride: 7,
            offset: 8,
            modifier: 9,
            egl_image: Some(1),
            wl_buffer: "buffer",
        }
    );
}

#[test]
fn both_kinds_have_a_wayland_buffer() {
    let dmabuf: Buffer = DmaBufBuffer::new(3, 4, 5, 6, 7, 8, 9, "gpu");
    let shm = ShmBuffer {
        wl_pool: 'p',
        wl_buffer: "memory",
        mem: 0u16,
        size: 400,
        width: 10,
        height: 10,
        stride: 40,
        gl_format: GL_BGRA_EXT,
    };
    let a: AppBuffer<i32, u8, u16, char, &str> = AppBuffer::DmaBuf(dmabuf);
    let b: AppBuffer<i32, u8, u16, char, &str> = AppBuffer::Shm(shm);
    assert_eq!(*a.wl_buffer(), "gpu");
    assert_eq!(*b.wl_buffer(), "memory");
}

#[test]
fn shm_buffers_have_four_bytes_a_pixel() {
    assert_eq!(
        shm_layout(640, 480, &[0x3432_4152, 0, 1]),
        ShmLayout {
            wl_format: 0,
            gl_format: 0x80E1,
            width: 640,
            height: 480,
            stride: 2560,
            size: 1_228_800,
            pool_size: 1_228_800,
            buffer_width: 640,
            buffer_height: 480,
            buffer_stride: 2560,
        }
    );
}

#[test]
fn the_first_shm_format_that_gl_reads_is_taken() {
    assert_eq!(shm_layout(1, 1, &[5, 1, 0]).wl_format, WL_SHM_FORMAT_XRGB8888);
    assert_eq!(shm_layout(1, 1, &[5, 0, 1]).wl_format, WL_SHM_FORMAT_ARGB8888);
    assert_eq!(shm_layout(1, 1, &[5, 6]).wl_format, WL_SHM_FORMAT_XRGB8888);
    assert_eq!(shm_layout(1, 1, &[]).wl_format, WL_SHM_FORMAT_XRGB8888);
}

#[test]
fn a_large_pool_size_comes_out_signed() {
    let layout = shm_layout(0x4000, 0x8000, &[]);
    assert_eq!(layout.size, 0x8000_0000);
    assert_eq!(layout.pool_size, i32::MIN);
    let wide = shm_layout(0x3fff_ffff, 1, &[]);
    assert_eq!(wide.stride, 0xffff_fffc);
    assert_eq!(wide.buffer_stride, -4);
    assert_eq!(wide.buffer_width, 0x3fff_ffff);
}

#[test]
fn a_shm_buffer_is_as_it_was_laid_out() {
    let buffer = ShmBuffer::new('p', "memory", 9u16, shm_layout(30, 20, &[1]));
    assert_eq!(
        buffer,
        ShmBuffer {
            wl_pool: 'p',
            wl_buffer: "memory",
            mem: 9u16,
            size: 2400,
            width: 30,
            height: 20,
            stride: 120,
            gl_format: GL_BGRA_EXT,
        }
    );
}

#[test]
fn a_buffer_is_imported_as_it_was_allocated() {
    let buffer: Buffer =
        DmaBufBuffer::new(8, 640, 480, DRM_FORMAT_XRGB8888, 2560, 64, 0x0300_0000_0000_0007, "gpu");
    assert_eq!(
        buffer.image_attribs(8),
        vec![
            0x3057, 640, 0x3056, 480, 0x3271, 0x3432_5258, 0x3272, 8, 0x3273, 64, 0x3274, 2560,
            0x3443, 7, 0x3444, 0x0300_0000, 0x3038,
        ]
    );
}

#[test]
fn shm_formats_off_the_list_fall_back() {
    assert_eq!(protocol_shm_format(0), 0);
    assert_eq!(protocol_shm_format(1), 1);
    // C8 is on the list, 2 is not.
    assert_eq!(protocol_shm_format(0x2020_3843), 0x2020_3843);
    assert_eq!(protocol_shm_format(2), 1);
    assert_eq!(shm_format_or_default(Some(7)), 7);
    assert_eq!(shm_format_or_default(None), 1);
}

#[test]
fn shm_codes_are_those_of_the_protocol() {
    assert_eq!(WL_SHM_FORMAT_ARGB8888, u32::from(Format::Argb8888));
    assert_eq!(WL_SHM_FORMAT_XRGB8888, u32::from(Format::Xrgb8888));
}

#[test]
fn the_last_pixel_ends_the_shm_buffer() {
    let layout = shm_layout(7, 3, &[]);
    let last = 2 * layout.stride as usize + 6 * 4;
    assert_eq!(last + 4, layout.size);
}
