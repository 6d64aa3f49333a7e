use kwaymag::egl::{
    config_attribs, context_attribs, dmabuf_attribs, dmabuf_support, split_modifier, DmaBufSupport,
    EGL_CONTEXT_CLIENT_VERSION, EGL_HEIGHT, EGL_NONE, EGL_WIDTH,
};

#[test]
fn config_is_eight_bits_without_alpha() {
    assert_eq!(
        config_attribs(),
        vec![
            khronos_egl::RED_SIZE, 8,
            khronos_egl::GREEN_SIZE, 8,
            khronos_egl::BLUE_SIZE, 8,
            khronos_egl::ALPHA_SIZE, 0,
            khronos_egl::SURFACE_TYPE, khronos_egl::WINDOW_BIT as i32,
            khronos_egl::RENDERABLE_TYPE, khronos_egl::OPENGL_ES3_BIT as i32,
            khronos_egl::NONE,
        ]
    );
}

#[test]
fn context_is_version_three() {
    assert_eq!(
        context_attribs(),
        vec![khronos_egl::CONTEXT_CLIENT_VERSION, 3, khronos_egl::NONE]
    );
    assert_eq!(EGL_CONTEXT_CLIENT_VERSION, 0x3098);
}

#[test]
fn egl_tokens_are_those_of_the_crate() {
    assert_eq!(EGL_WIDTH, khronos_egl::WIDTH);
    assert_eq!(EGL_HEIGHT, khronos_egl::HEIGHT);
    assert_eq!(EGL_NONE, khronos_egl::NONE);
}

#[test]
fn dmabuf_attributes_in_order() {
    assert_eq!(
        dmabuf_attribs(1920, 1080, 0x34325258, 7, 64, 7680, 0x0123_4567_89ab_cdef),
        vec![
            0x3057, 1920,
            0x3056, 1080,
            0x3271, 0x34325258,
            0x3272, 7,
            0x3273, 64,
            0x3274, 7680,
            0x3443, 0x89ab_cdef,
            0x3444, 0x0123_4567,
            0x3038,
        ]
    );
}

#[test]
fn modifiers_are_split_without_loss() {
    for modifier in [0, 1, 0xffff_ffff, 0x1_0000_0000, 0x00ff_ffff_ffff_ffff, u64::MAX] {
        let (hi, lo) = split_modifier(modifier);
        assert_eq!((hi as u64) << 32 | lo as u64, modifier);
    }
    assert_eq!(split_modifier(0x00ff_ffff_ffff_ffff), (0x00ff_ffff, 0xffff_ffff));
}

#[test]
fn extensions_are_found_in_the_list() {
    let none = DmaBufSupport { import: false, modifiers: false };
    assert_eq!(dmabuf_support(""), none);
    assert_eq!(dmabuf_support("EGL_KHR_image EGL_EXT_image_dma_buf_impor"), none);
    assert_eq!(
        dmabuf_support("EGL_KHR_image EGL_EXT_image_dma_buf_import EGL_KHR_fence"),
        DmaBufSupport { import: true, modifiers: false }
    );
    assert_eq!(
        dmabuf_support("EGL_EXT_image_dma_buf_import EGL_EXT_image_dma_buf_import_modifiers"),
        DmaBufSupport { import: true, modifiers: true }
    );
}

#[test]
fn modifiers_imply_import() {
    assert_eq!(
        dmabuf_support("EGL_EXT_image_dma_buf_import_modifiers"),
        DmaBufSupport { import: true, modifiers: true }
    );
}
