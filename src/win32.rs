//! Plain-value forms of the Win32 structures, messages and error codes that the bootstrap logic
//! reads. Handles and pointers are held as the integers that the operating system hands out.

#![allow(non_snake_case, non_camel_case_types)]

use vstd::prelude::*;

verus! {

/// Sent when the window is being destroyed.
pub const WM_DESTROY: u32 = 0x0002;

/// Sent when an application requests that a window be created.
pub const WM_CREATE: u32 = 0x0001;

/// Sent when the window should be painted.
pub const WM_PAINT: u32 = 0x000F;

/// Sent when the window is asked to close.
pub const WM_CLOSE: u32 = 0x0010;

/// Ends the message loop; its `wParam` is the exit code.
pub const WM_QUIT: u32 = 0x0012;

/// Sent before `WM_CREATE` when a window is first created.
pub const WM_NCCREATE: u32 = 0x0081;

/// The class gets one device context that each of its windows keeps.
pub const CS_OWNDC: u32 = 0x0000_0020;

/// Redraw the whole window when its width changes.
pub const CS_HREDRAW: u32 = 0x0000_0002;

/// Redraw the whole window when its height changes.
pub const CS_VREDRAW: u32 = 0x0000_0001;

/// The pixel buffer can draw to a window.
pub const PFD_DRAW_TO_WINDOW: u32 = 0x0000_0004;

/// The pixel buffer supports OpenGL drawing.
pub const PFD_SUPPORT_OPENGL: u32 = 0x0000_0020;

/// The pixel buffer is double-buffered.
pub const PFD_DOUBLEBUFFER: u32 = 0x0000_0001;

/// RGBA pixels.
pub const PFD_TYPE_RGBA: u8 = 0;

/// The main drawing plane.
pub const PFD_MAIN_PLANE: u8 = 0;

/// The size in bytes of the C layout of `PIXELFORMATDESCRIPTOR`.
pub const PIXELFORMATDESCRIPTOR_SIZE: u16 = 40;

/// Converts an integer resource identifier to the pointer-sized value that the resource
/// functions take in place of a resource name.
#[allow(non_snake_case)]
pub fn MAKEINITRESOURCEW(i: u16) -> (r: usize)
    ensures
        r == i as usize,
{
    i as usize
}

/// An error code from a Win32 call, or an application error: a code with
/// `Win32Error::APPLICATION_ERROR_BIT` set, which the system does not describe.
#[derive(Clone, Copy, Debug, PartialEq, Eq, Structural)]
pub struct Win32Error(pub u32);

impl Win32Error {
    /// Bit 29 marks an error code as defined by an application rather than by the system.
    pub const APPLICATION_ERROR_BIT: u32 = 0x2000_0000;

    /// The error that marks a broken contract of this library: a malformed argument, or an entry
    /// point that is not there.
    pub open spec fn spec_application() -> Win32Error {
        Win32Error(Self::APPLICATION_ERROR_BIT)
    }

    /// The error that marks a broken contract of this library.
    pub fn application() -> (r: Win32Error)
        ensures
            r == Win32Error::spec_application(),
    {
        Win32Error(Self::APPLICATION_ERROR_BIT)
    }

    pub open spec fn spec_is_application_error(&self) -> bool {
        self.0 & Self::APPLICATION_ERROR_BIT != 0
    }

    /// Whether the code is an application error, which the system cannot describe.
    #[verifier::when_used_as_spec(spec_is_application_error)]
    pub fn is_application_error(&self) -> (r: bool)
        ensures
            r == self.spec_is_application_error(),
    {
        self.0 & Self::APPLICATION_ERROR_BIT != 0
    }
}

/// Reads the result of `GetWindowLongPtrW` or `SetWindowLongPtrW`, given the last-error code
/// that was cleared before the call and read after it: a zero value is an error only when the
/// last-error code is not zero.
pub fn long_ptr_result(value: isize, last_error: u32) -> (r: Result<isize, Win32Error>)
    ensures
        r == if value == 0 && last_error != 0 {
            Err::<isize, Win32Error>(Win32Error(last_error))
        } else {
            Ok(value)
        },
{
    if value == 0 && last_error != 0 {
        Err(Win32Error(last_error))
    } else {
        Ok(value)
    }
}

pub open spec fn is_line_break_unit(u: u16) -> bool {
    u == 0x0D || u == 0x0A
}

/// The code units of a system message with each carriage return and line feed made a space.
pub open spec fn flattened_message(units: Seq<u16>) -> Seq<u16> {
    units.map_values(|u: u16| if is_line_break_unit(u) { 0x20u16 } else { u })
}

/// Whether a code unit is a leading (high) surrogate.
pub open spec fn is_high_surrogate(u: u16) -> bool {
    0xD800 <= u <= 0xDBFF
}

/// Whether a code unit is a trailing (low) surrogate.
pub open spec fn is_low_surrogate(u: u16) -> bool {
    0xDC00 <= u <= 0xDFFF
}

/// The characters of a sequence of UTF-16 code units, read as `char::decode_utf16` reads them, with
/// each surrogate that is not part of a high-low pair read as U+FFFD.
pub open spec fn utf16_lossy(units: Seq<u16>) -> Seq<char>
    decreases units.len(),
{
    if units.len() == 0 {
        seq![]
    } else if units.len() >= 2 && is_high_surrogate(units[0]) && is_low_surrogate(units[1]) {
        seq![
            (0x1_0000 + (units[0] - 0xD800) * 0x400 + (units[1] - 0xDC00)) as char,
        ] + utf16_lossy(units.skip(2))
    } else if is_high_surrogate(units[0]) || is_low_surrogate(units[0]) {
        seq!['\u{FFFD}'] + utf16_lossy(units.skip(1))
    } else {
        seq![units[0] as char] + utf16_lossy(units.skip(1))
    }
}

/// Relies on `String::from_utf16_lossy`: it decodes the code units as `char::decode_utf16` does
/// and replaces each unpaired surrogate with U+FFFD.
#[verifier::external_body]
fn string_from_utf16_lossy(units: &[u16]) -> (r: String)
    ensures
        r@ == utf16_lossy(units@),
{
    String::from_utf16_lossy(units)
}

/// Turns the UTF-16 text of a system error message into one line: carriage returns and line
/// feeds become spaces, and surrogates that form no pair become U+FFFD.
pub fn system_message_text(units: &[u16]) -> (r: String)
    ensures
        r@ == utf16_lossy(flattened_message(units@)),
{
    let mut flat: Vec<u16> = Vec::new();
    let mut i: usize = 0;
    while i < units.len()
        invariant
            i <= units@.len(),
            flat@ == flattened_message(units@.take(i as int)),
        decreases units@.len() - i,
    {
        let u = units[i];
        if u == 0x0D || u == 0x0A {
            flat.push(0x20);
        } else {
            flat.push(u);
        }
        assert(units@.take(i + 1) == units@.take(i as int).push(u));
        i += 1;
    }
    assert(units@.take(i as int) == units@);
    string_from_utf16_lossy(flat.as_slice())
}


/// The xy-coordinates of a point.
#[derive(Clone, Copy, Debug, PartialEq, Eq, Structural)]
pub struct POINT {
    pub x: i32,
    pub y: i32,
}

impl Default for POINT {
    fn default() -> (r: POINT)
        ensures
            r == (POINT { x: 0, y: 0 }),
    {
        POINT { x: 0, y: 0 }
    }
}

/// A rectangle given by its upper-left and lower-right corners.
#[derive(Clone, Copy, Debug, PartialEq, Eq, Structural)]
pub struct RECT {
    pub left: i32,
    pub top: i32,
    pub right: i32,
    pub bottom: i32,
}

impl Default for RECT {
    fn default() -> (r: RECT)
        ensures
            r == (RECT { left: 0, top: 0, right: 0, bottom: 0 }),
    {
        RECT { left: 0, top: 0, right: 0, bottom: 0 }
    }
}

/// A message from a thread's message queue.
#[derive(Clone, Copy, Debug, PartialEq, Eq, Structural)]
pub struct MSG {
    /// The window whose procedure receives the message; zero for a thread message.
    pub hwnd: usize,
    /// The message identifier.
    pub message: u32,
    /// Additional information about the message.
    pub wParam: usize,
    /// Additional information about the message.
    pub lParam: isize,
    /// The time at which the message was posted.
    pub time: u32,
    /// The cursor position, in screen coordinates, when the message was posted.
    pub pt: POINT,
    /// Reserved by the system.
    pub lPrivate: u32,
}

impl Default for MSG {
    fn default() -> (r: MSG)
        ensures
            r == (MSG {
                hwnd: 0,
                message: 0,
                wParam: 0,
                lParam: 0,
                time: 0,
                pt: POINT { x: 0, y: 0 },
                lPrivate: 0,
            }),
    {
        MSG { hwnd: 0, message: 0, wParam: 0, lParam: 0, time: 0, pt: POINT::default(), lPrivate: 0 }
    }
}

/// What an application needs to paint the client area of a window it owns.
#[derive(Clone, Copy, Debug)]
pub struct PAINTSTRUCT {
    /// The device context to paint with.
    pub hdc: usize,
    /// Whether the background should be erased.
    pub fErase: i32,
    /// The rectangle in which painting is requested.
    pub rcPaint: RECT,
    /// Reserved by the system.
    pub fRestore: i32,
    /// Reserved by the system.
    pub fIncUpdate: i32,
    /// Reserved by the system.
    pub rgbReserved: [u8; 32],
}

impl Default for PAINTSTRUCT {
    fn default() -> (r: PAINTSTRUCT)
        ensures
            r.hdc == 0,
            r.fErase == 0,
            r.rcPaint == (RECT { left: 0, top: 0, right: 0, bottom: 0 }),
            r.fRestore == 0,
            r.fIncUpdate == 0,
            forall|i: int| 0 <= i < 32 ==> r.rgbReserved[i] == 0,
    {
        PAINTSTRUCT {
            hdc: 0,
            fErase: 0,
            rcPaint: RECT::default(),
            fRestore: 0,
            fIncUpdate: 0,
            rgbReserved: [0u8; 32],
        }
    }
}

/// The initialization parameters passed to the window procedure with `WM_NCCREATE` and
/// `WM_CREATE`; they repeat the arguments of `CreateWindowExW`.
#[derive(Clone, Copy, Debug, PartialEq, Eq, Structural)]
pub struct CREATESTRUCTW {
    /// The creation parameter given to `CreateWindowExW`; zero when none was given.
    pub lpCreateParams: usize,
    pub hInstance: usize,
    pub hMenu: usize,
    pub hwndParent: usize,
    pub cy: i32,
    pub cx: i32,
    pub y: i32,
    pub x: i32,
    pub style: i32,
    pub lpszName: usize,
    pub lpszClass: usize,
    pub dwExStyle: u32,
}

impl Default for CREATESTRUCTW {
    fn default() -> (r: CREATESTRUCTW)
        ensures
            r == (CREATESTRUCTW {
                lpCreateParams: 0,
                hInstance: 0,
                hMenu: 0,
                hwndParent: 0,
                cy: 0,
                cx: 0,
                y: 0,
                x: 0,
                style: 0,
                lpszName: 0,
                lpszClass: 0,
                dwExStyle: 0,
            }),
    {
        CREATESTRUCTW {
            lpCreateParams: 0,
            hInstance: 0,
            hMenu: 0,
            hwndParent: 0,
            cy: 0,
            cx: 0,
            y: 0,
            x: 0,
            style: 0,
            lpszName: 0,
            lpszClass: 0,
            dwExStyle: 0,
        }
    }
}

/// A window class, as `RegisterClassW` takes it.
#[derive(Clone, Copy, Debug, PartialEq, Eq, Structural)]
pub struct WNDCLASSW {
    /// The class styles.
    pub style: u32,
    /// The address of the window procedure; zero for none.
    pub lpfnWndProc: usize,
    pub cbClsExtra: i32,
    pub cbWndExtra: i32,
    pub hInstance: usize,
    pub hIcon: usize,
    pub hCursor: usize,
    pub hbrBackground: usize,
    pub lpszMenuName: usize,
    /// The address of the class name, a null-terminated UTF-16 string.
    pub lpszClassName: usize,
}

impl Default for WNDCLASSW {
    fn default() -> (r: WNDCLASSW)
        ensures
            r == (WNDCLASSW {
                style: 0,
                lpfnWndProc: 0,
                cbClsExtra: 0,
                cbWndExtra: 0,
                hInstance: 0,
                hIcon: 0,
                hCursor: 0,
                hbrBackground: 0,
                lpszMenuName: 0,
                lpszClassName: 0,
            }),
    {
        WNDCLASSW {
            style: 0,
            lpfnWndProc: 0,
            cbClsExtra: 0,
            cbWndExtra: 0,
            hInstance: 0,
            hIcon: 0,
            hCursor: 0,
            hbrBackground: 0,
            lpszMenuName: 0,
            lpszClassName: 0,
        }
    }
}

/// The layout of a drawing surface: colour, depth and stencil bits and buffering.
#[derive(Clone, Copy, Debug, PartialEq, Eq, Structural)]
pub struct PIXELFORMATDESCRIPTOR {
    pub nSize: u16,
    pub nVersion: u16,
    pub dwFlags: u32,
    pub iPixelType: u8,
    pub cColorBits: u8,
    pub cRedBits: u8,
    pub cRedShift: u8,
    pub cGreenBits: u8,
    pub cGreenShift: u8,
    pub cBlueBits: u8,
    pub cBlueShift: u8,
    pub cAlphaBits: u8,
    pub cAlphaShift: u8,
    pub cAccumBits: u8,
    pub cAccumRedBits: u8,
    pub cAccumGreenBits: u8,
    pub cAccumBlueBits: u8,
    pub cAccumAlphaBits: u8,
    pub cDepthBits: u8,
    pub cStencilBits: u8,
    pub cAuxBuffers: u8,
    pub iLayerType: u8,
    pub bReserved: u8,
    pub dwLayerMask: u32,
    pub dwVisibleMask: u32,
    pub dwDamageMask: u32,
}

pub open spec fn zeroed_pixel_format() -> PIXELFORMATDESCRIPTOR {
    PIXELFORMATDESCRIPTOR {
        nSize: PIXELFORMATDESCRIPTOR_SIZE,
        nVersion: 1,
        dwFlags: 0,
        iPixelType: 0,
        cColorBits: 0,
        cRedBits: 0,
        cRedShift: 0,
        cGreenBits: 0,
        cGreenShift: 0,
        cBlueBits: 0,
        cBlueShift: 0,
        cAlphaBits: 0,
        cAlphaShift: 0,
        cAccumBits: 0,
        cAccumRedBits: 0,
        cAccumGreenBits: 0,
        cAccumBlueBits: 0,
        cAccumAlphaBits: 0,
        cDepthBits: 0,
        cStencilBits: 0,
        cAuxBuffers: 0,
        iLayerType: 0,
        bReserved: 0,
        dwLayerMask: 0,
        dwVisibleMask: 0,
        dwDamageMask: 0,
    }
}

impl Default for PIXELFORMATDESCRIPTOR {
    /// Every member zero but the size of the structure and the version, 1.
    fn default() -> (r: PIXELFORMATDESCRIPTOR)
        ensures
            r == zeroed_pixel_format(),
    {
        PIXELFORMATDESCRIPTOR {
            nSize: PIXELFORMATDESCRIPTOR_SIZE,
            nVersion: 1,
            dwFlags: 0,
            iPixelType: 0,
            cColorBits: 0,
            cRedBits: 0,
            cRedShift: 0,
            cGreenBits: 0,
            cGreenShift: 0,
            cBlueBits: 0,
            cBlueShift: 0,
            cAlphaBits: 0,
            cAlphaShift: 0,
            cAccumBits: 0,
            cAccumRedBits: 0,
            cAccumGreenBits: 0,
            cAccumBlueBits: 0,
            cAccumAlphaBits: 0,
            cDepthBits: 0,
            cStencilBits: 0,
            cAuxBuffers: 0,
            iLayerType: 0,
            bReserved: 0,
            dwLayerMask: 0,
            dwVisibleMask: 0,
            dwDamageMask: 0,
        }
    }
}

/// The predefined cursor styles.
#[derive(Clone, Copy, Debug, PartialEq, Eq, Structural)]
pub enum IDCursor {
    /// Standard arrow and small hourglass
    AppStarting,
    /// Standard arrow
    Arrow,
    /// Crosshair
    Cross,
    /// Hand
    Hand,
    /// Arrow and question mark
    Help,
    /// I-beam
    IBeam,
    /// Slashed circle
    No,
    /// Four-pointed arrow pointing north, south, east, and west
    SizeAll,
    /// Double-pointed arrow pointing northeast and southwest
    SizeNeSw,
    /// Double-pointed arrow pointing north and south
    SizeNS,
    /// Double-pointed arrow pointing northwest and southeast
    SizeNwSe,
    /// Double-pointed arrow pointing west and east
    SizeWE,
    /// Vertical arrow
    UpArrow,
    /// Hourglass
    Wait,
}

impl IDCursor {
    pub open spec fn spec_resource_id(self) -> u16 {
        match self {
            IDCursor::AppStarting => 32650,
            IDCursor::Arrow => 32512,
            IDCursor::Cross => 32515,
            IDCursor::Hand => 32649,
            IDCursor::Help => 32651,
            IDCursor::IBeam => 32513,
            IDCursor::No => 32648,
            IDCursor::SizeAll => 32646,
            IDCursor::SizeNeSw => 32643,
            IDCursor::SizeNS => 32645,
            IDCursor::SizeNwSe => 32642,
            IDCursor::SizeWE => 32644,
            IDCursor::UpArrow => 32516,
            IDCursor::Wait => 32514,
        }
    }

    /// The resource identifier of the cursor, as `LoadCursorW` takes it through
    /// `MAKEINITRESOURCEW`.
    pub fn resource_id(&self) -> (r: u16)
        ensures
            r == self.spec_resource_id(),
    {
        match self {
            IDCursor::AppStarting => 32650,
            IDCursor::Arrow => 32512,
            IDCursor::Cross => 32515,
            IDCursor::Hand => 32649,
            IDCursor::Help => 32651,
            IDCursor::IBeam => 32513,
            IDCursor::No => 32648,
            IDCursor::SizeAll => 32646,
            IDCursor::SizeNeSw => 32643,
            IDCursor::SizeNS => 32645,
            IDCursor::SizeNwSe => 32642,
            IDCursor::SizeWE => 32644,
            IDCursor::UpArrow => 32516,
            IDCursor::Wait => 32514,
        }
    }
}

/// The predefined system colours.
#[derive(Clone, Copy, Debug, PartialEq, Eq, Structural)]
pub enum SysColor {
    ActiveBorder,
    ActiveCaption,
    AppWorkspace,
    /// Button face, also "3D face" color.
    ButtonFace,
    /// Button highlight, also "3D highlight" color.
    ButtonHighlight,
    /// Button shadow, also "3D shadow" color.
    ButtonShadow,
    ButtonText,
    CaptionText,
    /// AKA "3D dark shadow"
    D3DarkShadow,
    /// AKA "3D light"
    D3Light,
    /// Desktop background color
    Desktop,
    GradientActiveCaption,
    GradientInactiveCaption,
    GrayText,
    Highlight,
    HighlightText,
    HotLight,
    InactiveBorder,
    InactiveCaption,
    InactiveCaptionText,
    InfoBackground,
    InfoText,
    Menu,
    MenuHighlight,
    MenuBar,
    MenuText,
    ScrollBar,
    Window,
    WindowFrame,
    WindowText,
}

impl SysColor {
    pub open spec fn spec_index(self) -> u32 {
        match self {
            SysColor::ActiveBorder => 10,
            SysColor::ActiveCaption => 2,
            SysColor::AppWorkspace => 12,
            SysColor::ButtonFace => 15,
            SysColor::ButtonHighlight => 20,
            SysColor::ButtonShadow => 16,
            SysColor::ButtonText => 18,
            SysColor::CaptionText => 9,
            SysColor::D3DarkShadow => 21,
            SysColor::D3Light => 22,
            SysColor::Desktop => 1,
            SysColor::GradientActiveCaption => 27,
            SysColor::GradientInactiveCaption => 28,
            SysColor::GrayText => 17,
            SysColor::Highlight => 13,
            SysColor::HighlightText => 14,
            SysColor::HotLight => 26,
            SysColor::InactiveBorder => 11,
            SysColor::InactiveCaption => 3,
            SysColor::InactiveCaptionText => 19,
            SysColor::InfoBackground => 24,
            SysColor::InfoText => 23,
            SysColor::Menu => 4,
            SysColor::MenuHighlight => 29,
            SysColor::MenuBar => 30,
            SysColor::MenuText => 7,
            SysColor::ScrollBar => 0,
            SysColor::Window => 5,
            SysColor::WindowFrame => 6,
            SysColor::WindowText => 8,
        }
    }

    /// The colour's index, as `GetSysColor` takes it.
    pub fn index(&self) -> (r: u32)
        ensures
            r == self.spec_index(),
    {
        match self {
            SysColor::ActiveBorder => 10,
            SysColor::ActiveCaption => 2,
            SysColor::AppWorkspace => 12,
            SysColor::ButtonFace => 15,
            SysColor::ButtonHighlight => 20,
            SysColor::ButtonShadow => 16,
            SysColor::ButtonText => 18,
            SysColor::CaptionText => 9,
            SysColor::D3DarkShadow => 21,
            SysColor::D3Light => 22,
            SysColor::Desktop => 1,
            SysColor::GradientActiveCaption => 27,
            SysColor::GradientInactiveCaption => 28,
            SysColor::GrayText => 17,
            SysColor::Highlight => 13,
            SysColor::HighlightText => 14,
            SysColor::HotLight => 26,
            SysColor::InactiveBorder => 11,
            SysColor::InactiveCaption => 3,
            SysColor::InactiveCaptionText => 19,
            SysColor::InfoBackground => 24,
            SysColor::InfoText => 23,
            SysColor::Menu => 4,
            SysColor::MenuHighlight => 29,
            SysColor::MenuBar => 30,
            SysColor::MenuText => 7,
            SysColor::ScrollBar => 0,
            SysColor::Window => 5,
            SysColor::WindowFrame => 6,
            SysColor::WindowText => 8,
        }
    }

    /// The value that `FillRect` takes as a brush to paint with this system colour: the
    /// colour's index plus one.
    pub fn brush(&self) -> (r: usize)
        ensures
            r == self.spec_index() + 1,
    {
        (self.index() + 1) as usize
    }
}

} // verus!
