use triangle_from_scratch::win32::{
    long_ptr_result, system_message_text, IDCursor, SysColor, Win32Error, MAKEINITRESOURCEW, MSG,
    PAINTSTRUCT, PIXELFORMATDESCRIPTOR, POINT, RECT,
};

#[test]
fn makeintresource_keeps_the_value() {
    assert_eq!(MAKEINITRESOURCEW(32512), 32512usize);
    assert_eq!(MAKEINITRESOURCEW(IDCursor::Arrow.resource_id()), 32512usize);
    assert_eq!(IDCursor::Wait.resource_id(), 32514);
}

#[test]
fn sys_color_brush_is_index_plus_one() {
    assert_eq!(SysColor::Window.index(), 5);
    assert_eq!(SysColor::Window.brush(), 6);
    assert_eq!(SysColor::ScrollBar.brush(), 1);
}

#[test]
fn application_errors_are_told_apart() {
    assert!(Win32Error(Win32Error::APPLICATION_ERROR_BIT).is_application_error());
    assert!(Win32Error(Win32Error::APPLICATION_ERROR_BIT | 5).is_application_error());
    assert!(!Win32Error(5).is_application_error());
    assert_eq!(Win32Error::application(), Win32Error(1 << 29));
}

#[test]
fn zero_long_ptr_is_an_error_only_with_a_last_error() {
    assert_eq!(long_ptr_result(0, 0), Ok(0));
    assert_eq!(long_ptr_result(0, 1400), Err(Win32Error(1400)));
    assert_eq!(long_ptr_result(42, 1400), Ok(42));
}

#[test]
fn system_messages_become_one_line() {
    let units: Vec<u16> = "The operation completed successfully.\r\n".encode_utf16().collect();
    assert_eq!(system_message_text(&units), "The operation completed successfully.  ");
    assert_eq!(system_message_text(&[0x61, 0xD800, 0x62]), "a\u{FFFD}b");
    assert_eq!(system_message_text(&[]), "");
    assert_eq!(system_message_text(&[0xD83D, 0xDE00, 0x0A, 0xDC00]), "\u{1F600} \u{FFFD}");
}

#[test]
fn defaults_are_zeroed() {
    let pfd = PIXELFORMATDESCRIPTOR::default();
    assert_eq!(pfd.nSize, 40);
    assert_eq!(pfd.nVersion, 1);
    assert_eq!(pfd.dwFlags, 0);
    let msg = MSG::default();
    assert_eq!(msg.message, 0);
    assert_eq!(msg.pt, POINT { x: 0, y: 0 });
    let ps = PAINTSTRUCT::default();
    assert_eq!(ps.rcPaint, RECT { left: 0, top: 0, right: 0, bottom: 0 });
    assert_eq!(ps.rgbReserved, [0u8; 32]);
}
