use triangle_from_scratch::wgl::{
    attrib_list_check, check_proc_name, choose_proc_address, chosen_pixel_format,
    context_attribs, has_extension, is_proc_sentinel, legacy_pixel_format,
    parse_extension_names, pixel_format_attribs, swap_interval, wgl_proc_result,
    WGL_FRAMEBUFFER_SRGB_CAPABLE_EXT, WGL_SAMPLE_BUFFERS_ARB,
};
use triangle_from_scratch::win32::Win32Error;

fn names(list: &[&str]) -> Vec<String> {
    list.iter().map(|s| s.to_string()).collect()
}

#[test]
fn parse_splits_on_spaces_and_drops_empty_names() {
    assert_eq!(
        parse_extension_names("WGL_EXT_framebuffer_sRGB WGL_ARB_multisample"),
        names(&["WGL_EXT_framebuffer_sRGB", "WGL_ARB_multisample"])
    );
    assert_eq!(parse_extension_names("  a  b "), names(&["a", "b"]));
    assert_eq!(parse_extension_names(""), Vec::<String>::new());
    assert_eq!(parse_extension_names("   "), Vec::<String>::new());
    assert_eq!(parse_extension_names("only"), names(&["only"]));
}

#[test]
fn extension_gating_with_both_extensions() {
    let exts = parse_extension_names("WGL_EXT_framebuffer_sRGB WGL_ARB_multisample");
    let attribs = pixel_format_attribs(&exts);
    assert!(attribs.contains(&[WGL_FRAMEBUFFER_SRGB_CAPABLE_EXT, 1]));
    assert!(attribs.contains(&[WGL_SAMPLE_BUFFERS_ARB, 1]));
    assert_eq!(attribs.len(), 10);
    assert_eq!(attribs.last(), Some(&[0, 0]));
}

#[test]
fn extension_gating_with_no_extensions() {
    let exts = parse_extension_names("");
    let attribs = pixel_format_attribs(&exts);
    assert!(!attribs.iter().any(|a| a[0] == WGL_FRAMEBUFFER_SRGB_CAPABLE_EXT));
    assert!(!attribs.iter().any(|a| a[0] == WGL_SAMPLE_BUFFERS_ARB));
    assert_eq!(
        attribs,
        vec![
            [0x2001, 1],
            [0x2010, 1],
            [0x2011, 1],
            [0x2013, 0x202B],
            [0x2014, 32],
            [0x2022, 24],
            [0x2023, 8],
            [0, 0],
        ]
    );
}

#[test]
fn has_extension_matches_whole_names() {
    let exts = names(&["WGL_ARB_multisample_extra", "WGL_EXT_swap_control"]);
    assert!(!has_extension(&exts, "WGL_ARB_multisample"));
    assert!(has_extension(&exts, "WGL_EXT_swap_control"));
}

#[test]
fn swap_interval_prefers_adaptive_vsync() {
    let tear = parse_extension_names("WGL_ARB_pixel_format WGL_EXT_swap_control_tear");
    assert_eq!(swap_interval(&tear), -1);
    assert_eq!(swap_interval(&tear), -1);
    let plain = parse_extension_names("WGL_EXT_swap_control");
    assert_eq!(swap_interval(&plain), 1);
    assert_eq!(swap_interval(&Vec::new()), 1);
}

#[test]
fn context_attribs_ask_for_core_4_6() {
    assert_eq!(
        context_attribs(false),
        vec![[0x2091, 4], [0x2092, 6], [0x9126, 1], [0x2094, 2], [0, 0]]
    );
    assert_eq!(
        context_attribs(true),
        vec![[0x2091, 4], [0x2092, 6], [0x9126, 1], [0x2094, 3], [0, 0]]
    );
}

#[test]
fn attribute_lists_must_end_with_a_zero_key() {
    let app = Win32Error(Win32Error::APPLICATION_ERROR_BIT);
    assert_eq!(attrib_list_check(&[]), Ok(false));
    assert_eq!(attrib_list_check(&[[0x2001, 1], [0, 0]]), Ok(true));
    assert_eq!(attrib_list_check(&[[0x2001, 1]]), Err(app));
    assert_eq!(attrib_list_check(&[[0, 0], [0x2001, 1]]), Err(app));
    assert_eq!(attrib_list_check(&pixel_format_attribs(&Vec::new())), Ok(true));
    assert_eq!(attrib_list_check(&context_attribs(true)), Ok(true));
}

#[test]
fn chosen_pixel_format_needs_exactly_one_match() {
    assert_eq!(chosen_pixel_format(1, 7, 1, 0), Ok(7));
    assert_eq!(chosen_pixel_format(1, 7, 0, 13), Err(Win32Error(13)));
    assert_eq!(chosen_pixel_format(0, 7, 1, 87), Err(Win32Error(87)));
}

#[test]
fn loader_sentinels_fall_back_to_the_module() {
    for s in [0usize, 1, 2, 3, usize::MAX] {
        assert!(is_proc_sentinel(s));
        assert_eq!(choose_proc_address(s, 0x1000), Some(0x1000));
        assert_eq!(choose_proc_address(s, 0), None);
        assert_eq!(wgl_proc_result(s, 127), Err(Win32Error(127)));
    }
    assert!(!is_proc_sentinel(4));
    assert_eq!(choose_proc_address(0x2000, 0x1000), Some(0x2000));
    assert_eq!(wgl_proc_result(0x2000, 127), Ok(0x2000));
}

#[test]
fn proc_names_must_be_null_terminated() {
    let app = Win32Error(Win32Error::APPLICATION_ERROR_BIT);
    assert_eq!(check_proc_name(b"wglSwapIntervalEXT\0"), Ok(()));
    assert_eq!(check_proc_name(b"wglSwapIntervalEXT"), Err(app));
    assert_eq!(check_proc_name(b""), Err(app));
}

#[test]
fn legacy_pixel_format_is_minimal_rgba() {
    let pfd = legacy_pixel_format();
    assert_eq!(pfd.nSize, 40);
    assert_eq!(pfd.nVersion, 1);
    assert_eq!(pfd.dwFlags, 0x4 | 0x20 | 0x1);
    assert_eq!(pfd.iPixelType, 0);
    assert_eq!((pfd.cColorBits, pfd.cDepthBits, pfd.cStencilBits), (32, 24, 8));
    assert_eq!(pfd.cAlphaBits, 0);
}
