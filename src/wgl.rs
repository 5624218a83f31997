//! The WGL side of context creation: the extension names a driver reports, the attribute lists
//! built from them, and the reading of the addresses that the procedure lookups return.

use vstd::prelude::*;
use vstd::std_specs::iter::IteratorSpec;
use crate::win32::{
    zeroed_pixel_format, Win32Error, PFD_DOUBLEBUFFER, PFD_DRAW_TO_WINDOW, PFD_MAIN_PLANE,
    PFD_SUPPORT_OPENGL, PFD_TYPE_RGBA, PIXELFORMATDESCRIPTOR,
};

verus! {

broadcast use vstd::string::group_string_axioms, vstd::string::next_postcondition;

/// The characters of a string, in order.
fn chars_of(s: &str) -> (r: Vec<char>)
    ensures
        r@ == s@,
{
    let mut it = s.chars();
    let mut v: Vec<char> = Vec::new();
    loop
        invariant
            v@ + it.remaining() == s@,
            it.obeys_prophetic_iter_laws(),
            it.decrease() is Some,
        ensures
            v@ == s@,
        decreases it.decrease()->0,
    {
        match it.next() {
            Some(c) => {
                v.push(c);
            },
            None => {
                break;
            },
        }
    }
    v
}

/// The names in `s` after the partial name `cur`: names end at a space or at the end, and
/// empty ones are left out.
pub open spec fn names_from(cur: Seq<char>, s: Seq<char>) -> Seq<Seq<char>>
    decreases s.len(),
{
    if s.len() == 0 {
        if cur.len() > 0 {
            seq![cur]
        } else {
            seq![]
        }
    } else if s[0] == ' ' {
        (if cur.len() > 0 {
            seq![cur]
        } else {
            seq![]
        }) + names_from(seq![], s.drop_first())
    } else {
        names_from(cur.push(s[0]), s.drop_first())
    }
}

/// The extension names of a space-separated extension string, empty names left out.
pub open spec fn extension_names(s: Seq<char>) -> Seq<Seq<char>> {
    names_from(seq![], s)
}

/// The characters of each string of a list.
pub open spec fn names_view(v: Seq<String>) -> Seq<Seq<char>> {
    v.map_values(|x: String| x@)
}

/// Splits the extension string that `wglGetExtensionsStringARB` returns into extension names.
pub fn parse_extension_names(s: &str) -> (r: Vec<String>)
    ensures
        names_view(r@) == extension_names(s@),
{
    let chars = chars_of(s);
    let n = chars.len();
    let mut out: Vec<String> = Vec::new();
    let mut start: usize = 0;
    let mut i: usize = 0;
    assert(names_view(out@) == Seq::<Seq<char>>::empty());
    assert(s@.subrange(0, 0) == Seq::<char>::empty());
    assert(s@.skip(0) == s@);
    assert(Seq::<Seq<char>>::empty() + extension_names(s@) == extension_names(s@));
    while i < n
        invariant
            n == chars@.len(),
            chars@ == s@,
            start <= i <= n,
            names_view(out@) + names_from(s@.subrange(start as int, i as int), s@.skip(i as int))
                == extension_names(s@),
        decreases n - i,
    {
        let c = chars[i];
        let ghost cur = s@.subrange(start as int, i as int);
        assert(s@.skip(i as int)[0] == c);
        assert(s@.skip(i as int).drop_first() == s@.skip(i + 1));
        if c == ' ' {
            if i > start {
                let name = s.substring_char(start, i).to_owned();
                let ghost before = out@;
                out.push(name);
                assert(names_view(out@) == names_view(before) + seq![cur]);
            } else {
                assert(seq![] + names_from(seq![], s@.skip(i + 1)) == names_from(seq![], s@.skip(i + 1)));
            }
            assert(s@.subrange(i + 1, i + 1) == Seq::<char>::empty());
            start = i + 1;
        } else {
            assert(cur.push(c) == s@.subrange(start as int, i + 1));
        }
        i += 1;
    }
    assert(s@.skip(n as int).len() == 0);
    if n > start {
        let ghost before = out@;
        out.push(s.substring_char(start, n).to_owned());
        assert(names_view(out@) == names_view(before) + seq![s@.subrange(start as int, n as int)]);
    } else {
        assert(names_view(out@) + seq![] == names_view(out@));
    }
    out
}


/// The framebuffer can hold sRGB colour.
pub const WGL_EXT_FRAMEBUFFER_SRGB: &'static str = "WGL_EXT_framebuffer_sRGB";

/// The framebuffer can be multisampled.
pub const WGL_ARB_MULTISAMPLE: &'static str = "WGL_ARB_multisample";

/// The swap interval can be negative, for adaptive vertical sync.
pub const WGL_EXT_SWAP_CONTROL_TEAR: &'static str = "WGL_EXT_swap_control_tear";

pub const WGL_DRAW_TO_WINDOW_ARB: i32 = 0x2001;
pub const WGL_SUPPORT_OPENGL_ARB: i32 = 0x2010;
pub const WGL_DOUBLE_BUFFER_ARB: i32 = 0x2011;
pub const WGL_PIXEL_TYPE_ARB: i32 = 0x2013;
pub const WGL_COLOR_BITS_ARB: i32 = 0x2014;
pub const WGL_DEPTH_BITS_ARB: i32 = 0x2022;
pub const WGL_STENCIL_BITS_ARB: i32 = 0x2023;
pub const WGL_TYPE_RGBA_ARB: i32 = 0x202B;
pub const WGL_FRAMEBUFFER_SRGB_CAPABLE_EXT: i32 = 0x20A9;
pub const WGL_SAMPLE_BUFFERS_ARB: i32 = 0x2041;

pub const WGL_CONTEXT_MAJOR_VERSION_ARB: i32 = 0x2091;
pub const WGL_CONTEXT_MINOR_VERSION_ARB: i32 = 0x2092;
pub const WGL_CONTEXT_FLAGS_ARB: i32 = 0x2094;
pub const WGL_CONTEXT_PROFILE_MASK_ARB: i32 = 0x9126;
pub const WGL_CONTEXT_DEBUG_BIT_ARB: i32 = 0x0001;
pub const WGL_CONTEXT_FORWARD_COMPATIBLE_BIT_ARB: i32 = 0x0002;
pub const WGL_CONTEXT_CORE_PROFILE_BIT_ARB: i32 = 0x0000_0001;

/// Whether `name` is among the extension names.
pub fn has_extension(exts: &Vec<String>, name: &str) -> (r: bool)
    ensures
        r == names_view(exts@).contains(name@),
{
    let target = name.to_owned();
    let mut i: usize = 0;
    while i < exts.len()
        invariant
            i <= exts@.len(),
            target@ == name@,
            forall|j: int| 0 <= j < i ==> exts@[j]@ != name@,
        decreases exts@.len() - i,
    {
        if exts[i] == target {
            assert(names_view(exts@)[i as int] == name@);
            return true;
        }
        i += 1;
    }
    assert(!names_view(exts@).contains(name@)) by {
        if names_view(exts@).contains(name@) {
            let j = choose|j: int| 0 <= j < names_view(exts@).len() && names_view(exts@)[j] == name@;
            assert(exts@[j]@ == name@);
        }
    }
    false
}

/// The pixel-format attributes asked for: a window-drawable, OpenGL-capable, double-buffered RGBA
/// format with 32 colour, 24 depth and 8 stencil bits; an sRGB-capable framebuffer and one
/// sample buffer where the extensions allow them; and the terminating zero pair.
pub open spec fn spec_pixel_format_attribs(srgb: bool, multisample: bool) -> Seq<[i32; 2]> {
    seq![
        [WGL_DRAW_TO_WINDOW_ARB, 1],
        [WGL_SUPPORT_OPENGL_ARB, 1],
        [WGL_DOUBLE_BUFFER_ARB, 1],
        [WGL_PIXEL_TYPE_ARB, WGL_TYPE_RGBA_ARB],
        [WGL_COLOR_BITS_ARB, 32],
        [WGL_DEPTH_BITS_ARB, 24],
        [WGL_STENCIL_BITS_ARB, 8],
    ] + (if srgb {
        seq![[WGL_FRAMEBUFFER_SRGB_CAPABLE_EXT, 1]]
    } else {
        seq![]
    }) + (if multisample {
        seq![[WGL_SAMPLE_BUFFERS_ARB, 1]]
    } else {
        seq![]
    }) + seq![[0i32, 0i32]]
}

/// The sRGB-capable entry is in the pixel-format attribute list exactly when sRGB framebuffers are
/// offered, and the sample-buffer entry exactly when multisampling is.
pub proof fn lemma_extension_gating(srgb: bool, multisample: bool)
    ensures
        spec_pixel_format_attribs(srgb, multisample).contains([WGL_FRAMEBUFFER_SRGB_CAPABLE_EXT, 1])
            == srgb,
        spec_pixel_format_attribs(srgb, multisample).contains([WGL_SAMPLE_BUFFERS_ARB, 1])
            == multisample,
{
    let a = spec_pixel_format_attribs(srgb, multisample);
    let n = a.len() as int;
    assert forall|i: int| 0 <= i < n implies a[i][0] != WGL_FRAMEBUFFER_SRGB_CAPABLE_EXT || srgb by {}
    assert forall|i: int| 0 <= i < n implies a[i][0] != WGL_SAMPLE_BUFFERS_ARB || multisample by {}
    if srgb {
        assert(a[7] == [WGL_FRAMEBUFFER_SRGB_CAPABLE_EXT, 1]);
    }
    if multisample {
        assert(a[if srgb { 8 } else { 7 }] == [WGL_SAMPLE_BUFFERS_ARB, 1]);
    }
}

/// Builds the zero-terminated integer attribute list for `wglChoosePixelFormatARB`.
pub fn pixel_format_attribs(exts: &Vec<String>) -> (r: Vec<[i32; 2]>)
    ensures
        r@ == spec_pixel_format_attribs(
            names_view(exts@).contains(WGL_EXT_FRAMEBUFFER_SRGB@),
            names_view(exts@).contains(WGL_ARB_MULTISAMPLE@),
        ),
{
    let mut attribs: Vec<[i32; 2]> = Vec::new();
    attribs.push([WGL_DRAW_TO_WINDOW_ARB, 1]);
    attribs.push([WGL_SUPPORT_OPENGL_ARB, 1]);
    attribs.push([WGL_DOUBLE_BUFFER_ARB, 1]);
    attribs.push([WGL_PIXEL_TYPE_ARB, WGL_TYPE_RGBA_ARB]);
    attribs.push([WGL_COLOR_BITS_ARB, 32]);
    attribs.push([WGL_DEPTH_BITS_ARB, 24]);
    attribs.push([WGL_STENCIL_BITS_ARB, 8]);
    let srgb = has_extension(exts, WGL_EXT_FRAMEBUFFER_SRGB);
    if srgb {
        attribs.push([WGL_FRAMEBUFFER_SRGB_CAPABLE_EXT, 1]);
    }
    let multisample = has_extension(exts, WGL_ARB_MULTISAMPLE);
    if multisample {
        attribs.push([WGL_SAMPLE_BUFFERS_ARB, 1]);
    }
    attribs.push([0, 0]);
    assert(attribs@ == spec_pixel_format_attribs(srgb, multisample));
    attribs
}


/// The context flags: forward compatible, and a debug context where asked for.
pub open spec fn spec_context_flags(debug: bool) -> i32 {
    if debug {
        WGL_CONTEXT_FORWARD_COMPATIBLE_BIT_ARB | WGL_CONTEXT_DEBUG_BIT_ARB
    } else {
        WGL_CONTEXT_FORWARD_COMPATIBLE_BIT_ARB
    }
}

/// The context attributes asked for: OpenGL 4.6, core profile, the context flags, and the
/// terminating zero pair.
pub open spec fn spec_context_attribs(debug: bool) -> Seq<[i32; 2]> {
    seq![
        [WGL_CONTEXT_MAJOR_VERSION_ARB, 4],
        [WGL_CONTEXT_MINOR_VERSION_ARB, 6],
        [WGL_CONTEXT_PROFILE_MASK_ARB, WGL_CONTEXT_CORE_PROFILE_BIT_ARB],
        [WGL_CONTEXT_FLAGS_ARB, spec_context_flags(debug)],
        [0i32, 0i32],
    ]
}

/// Builds the zero-terminated attribute list for `wglCreateContextAttribsARB`; `debug` asks for
/// a debug context.
pub fn context_attribs(debug: bool) -> (r: Vec<[i32; 2]>)
    ensures
        r@ == spec_context_attribs(debug),
{
    let flags = if debug {
        WGL_CONTEXT_FORWARD_COMPATIBLE_BIT_ARB | WGL_CONTEXT_DEBUG_BIT_ARB
    } else {
        WGL_CONTEXT_FORWARD_COMPATIBLE_BIT_ARB
    };
    let mut attribs: Vec<[i32; 2]> = Vec::new();
    attribs.push([WGL_CONTEXT_MAJOR_VERSION_ARB, 4]);
    attribs.push([WGL_CONTEXT_MINOR_VERSION_ARB, 6]);
    attribs.push([WGL_CONTEXT_PROFILE_MASK_ARB, WGL_CONTEXT_CORE_PROFILE_BIT_ARB]);
    attribs.push([WGL_CONTEXT_FLAGS_ARB, flags]);
    attribs.push([0, 0]);
    assert(attribs@ == spec_context_attribs(debug));
    attribs
}

/// The swap interval to ask for: adaptive vertical sync (-1) where the driver offers
/// `WGL_EXT_swap_control_tear`, else plain vertical sync (1).
pub open spec fn spec_swap_interval(names: Seq<Seq<char>>) -> i32 {
    if names.contains(WGL_EXT_SWAP_CONTROL_TEAR@) {
        -1i32
    } else {
        1i32
    }
}

/// Chooses the swap interval from the extension names.
pub fn swap_interval(exts: &Vec<String>) -> (r: i32)
    ensures
        r == spec_swap_interval(names_view(exts@)),
{
    if has_extension(exts, WGL_EXT_SWAP_CONTROL_TEAR) {
        -1
    } else {
        1
    }
}

/// The swap interval depends on which names are in the extension list and on nothing else:
/// two lists that hold the same names, in any order and any number of times, give the same
/// interval.
pub proof fn lemma_swap_interval_depends_on_name_set(a: Seq<Seq<char>>, b: Seq<Seq<char>>)
    requires
        a.to_set() == b.to_set(),
    ensures
        spec_swap_interval(a) == spec_swap_interval(b),
{
    let tear = WGL_EXT_SWAP_CONTROL_TEAR@;
    assert(a.contains(tear) == a.to_set().contains(tear));
    assert(b.contains(tear) == b.to_set().contains(tear));
}

/// How a zero-terminated attribute list goes to a WGL call: `Ok(true)` to pass the list,
/// `Ok(false)` to pass a null pointer for an empty list, and the application error for a
/// non-empty list whose last key is not zero.
pub open spec fn spec_attrib_list_check(attrs: Seq<[i32; 2]>) -> Result<bool, Win32Error> {
    if attrs.len() == 0 {
        Ok(false)
    } else if attrs.last()[0] == 0 {
        Ok(true)
    } else {
        Err(Win32Error::spec_application())
    }
}

/// Checks a key/value attribute list before it is handed to a WGL call.
pub fn attrib_list_check(attrs: &[[i32; 2]]) -> (r: Result<bool, Win32Error>)
    ensures
        r == spec_attrib_list_check(attrs@),
{
    let n = attrs.len();
    if n == 0 {
        Ok(false)
    } else {
        let last = attrs[n - 1];
        if last[0] == 0 {
            Ok(true)
        } else {
            Err(Win32Error::application())
        }
    }
}

/// The lists that this library builds are zero-terminated, so they pass the check.
pub proof fn lemma_built_lists_are_terminated(srgb: bool, multisample: bool, debug: bool)
    ensures
        spec_pixel_format_attribs(srgb, multisample).last()[0] == 0,
        spec_attrib_list_check(spec_pixel_format_attribs(srgb, multisample)) == Ok::<
            bool,
            Win32Error,
        >(true),
        spec_context_attribs(debug).last()[0] == 0,
        spec_attrib_list_check(spec_context_attribs(debug)) == Ok::<bool, Win32Error>(true),
{
}

/// Reads what `wglChoosePixelFormatARB` returned: the format when the call succeeded and
/// matched exactly one format, else the last-error code.
pub fn chosen_pixel_format(
    ret: i32,
    format: i32,
    format_count: u32,
    last_error: u32,
) -> (r: Result<i32, Win32Error>)
    ensures
        r == if ret != 0 && format_count == 1 {
            Ok::<i32, Win32Error>(format)
        } else {
            Err(Win32Error(last_error))
        },
{
    if ret != 0 && format_count == 1 {
        Ok(format)
    } else {
        Err(Win32Error(last_error))
    }
}

/// The values that `wglGetProcAddress` may return in place of null when it finds nothing:
/// 0, 1, 2, 3 and all ones.
pub open spec fn spec_is_proc_sentinel(addr: usize) -> bool {
    addr == 0 || addr == 1 || addr == 2 || addr == 3 || addr == usize::MAX
}

/// Whether an address from `wglGetProcAddress` stands for failure.
pub fn is_proc_sentinel(addr: usize) -> (r: bool)
    ensures
        r == spec_is_proc_sentinel(addr),
{
    addr == 0 || addr == 1 || addr == 2 || addr == 3 || addr == usize::MAX
}

/// The address a procedure lookup ends with: what the context-specific resolver returned unless
/// that is a sentinel, else what the module resolver returned, unless that is null.
pub open spec fn spec_choose_proc_address(context_addr: usize, module_addr: usize) -> Option<
    usize,
> {
    if !spec_is_proc_sentinel(context_addr) {
        Some(context_addr)
    } else if module_addr != 0 {
        Some(module_addr)
    } else {
        None
    }
}

/// Combines the two resolvers of a procedure lookup. The module resolver need only be asked
/// when `is_proc_sentinel(context_addr)`; otherwise `module_addr` is not read.
pub fn choose_proc_address(context_addr: usize, module_addr: usize) -> (r: Option<usize>)
    ensures
        r == spec_choose_proc_address(context_addr, module_addr),
        r matches Some(a) ==> a != 0,
{
    if !is_proc_sentinel(context_addr) {
        Some(context_addr)
    } else if module_addr != 0 {
        Some(module_addr)
    } else {
        None
    }
}

/// Whether a procedure name is null-terminated, as the lookups need it.
pub fn check_proc_name(name: &[u8]) -> (r: Result<(), Win32Error>)
    ensures
        r == if name@.len() > 0 && name@.last() == 0 {
            Ok::<(), Win32Error>(())
        } else {
            Err(Win32Error::spec_application())
        },
{
    let n = name.len();
    if n > 0 && name[n - 1] == 0 {
        Ok(())
    } else {
        Err(Win32Error::application())
    }
}

/// Reads what `wglGetProcAddress` returned when nothing else is asked: the address, or the
/// last-error code for a sentinel.
pub fn wgl_proc_result(addr: usize, last_error: u32) -> (r: Result<usize, Win32Error>)
    ensures
        r == if spec_is_proc_sentinel(addr) {
            Err::<usize, Win32Error>(Win32Error(last_error))
        } else {
            Ok(addr)
        },
{
    if is_proc_sentinel(addr) {
        Err(Win32Error(last_error))
    } else {
        Ok(addr)
    }
}

/// The minimal pixel format asked of the throwaway window: drawable to a window, OpenGL
/// capable, double-buffered RGBA with 32 colour, 24 depth and 8 stencil bits, main plane.
pub open spec fn spec_legacy_pixel_format() -> PIXELFORMATDESCRIPTOR {
    PIXELFORMATDESCRIPTOR {
        dwFlags: PFD_DRAW_TO_WINDOW | PFD_SUPPORT_OPENGL | PFD_DOUBLEBUFFER,
        iPixelType: PFD_TYPE_RGBA,
        cColorBits: 32,
        cDepthBits: 24,
        cStencilBits: 8,
        iLayerType: PFD_MAIN_PLANE,
        ..zeroed_pixel_format()
    }
}

/// Builds the pixel format request for the throwaway window of the negotiation.
pub fn legacy_pixel_format() -> (r: PIXELFORMATDESCRIPTOR)
    ensures
        r == spec_legacy_pixel_format(),
{
    PIXELFORMATDESCRIPTOR {
        dwFlags: PFD_DRAW_TO_WINDOW | PFD_SUPPORT_OPENGL | PFD_DOUBLEBUFFER,
        iPixelType: PFD_TYPE_RGBA,
        cColorBits: 32,
        cDepthBits: 24,
        cStencilBits: 8,
        iLayerType: PFD_MAIN_PLANE,
        ..PIXELFORMATDESCRIPTOR::default()
    }
}

} // verus!
