use vstd::prelude::*;

verus! {

/// A point in window coordinates.
#[derive(Clone, Copy, Debug, PartialEq, Eq, Structural)]
pub struct POINT {
    pub x: i32,
    pub y: i32,
}

/// A window message as the message queue hands it out. The window handle
/// is carried as a plain value.
#[allow(non_snake_case)]
#[derive(Clone, Copy, Debug, PartialEq, Eq, Structural)]
pub struct MSG {
    pub hwnd: usize,
    pub message: u32,
    pub wParam: usize,
    pub lParam: isize,
    pub time: u32,
    pub pt: POINT,
}

impl MSG {
    /// An empty message, to be filled by the message queue.
    pub fn new() -> (r: MSG)
        ensures
            r == (MSG {
                hwnd: 0,
                message: 0,
                wParam: 0,
                lParam: 0,
                time: 0,
                pt: POINT { x: 0, y: 0 },
            }),
    {
        MSG { hwnd: 0, message: 0, wParam: 0, lParam: 0, time: 0, pt: POINT { x: 0, y: 0 } }
    }
}

pub const WM_DESTROY: u32 = 0x0002;

pub const WM_SIZE: u32 = 0x0005;

pub const WM_CLOSE: u32 = 0x0010;

pub const WM_QUIT: u32 = 0x0012;

/// The window messages the library tells apart.
#[derive(Clone, Copy, Debug, PartialEq, Eq, Structural)]
pub enum WM {
    SIZE,
    QUIT,
    DESTROY,
    CLOSE,
    NULL,
}

/// The kind of the message numbered `msg`.
pub open spec fn spec_wm(msg: u32) -> WM {
    if msg == WM_DESTROY {
        WM::DESTROY
    } else if msg == WM_SIZE {
        WM::SIZE
    } else if msg == WM_CLOSE {
        WM::CLOSE
    } else if msg == WM_QUIT {
        WM::QUIT
    } else {
        WM::NULL
    }
}

impl From<u32> for WM {
    fn from(msg: u32) -> (r: WM) {
        if msg == WM_DESTROY {
            WM::DESTROY
        } else if msg == WM_SIZE {
            WM::SIZE
        } else if msg == WM_CLOSE {
            WM::CLOSE
        } else if msg == WM_QUIT {
            WM::QUIT
        } else {
            WM::NULL
        }
    }
}

impl vstd::std_specs::convert::FromSpecImpl<u32> for WM {
    open spec fn obeys_from_spec() -> bool {
        true
    }

    open spec fn from_spec(msg: u32) -> WM {
        spec_wm(msg)
    }
}

/// What the window procedure does with a message.
#[derive(Clone, Copy, Debug, PartialEq, Eq, Structural)]
pub enum WindowAction {
    /// Handled: return zero.
    Handled,
    /// Destroy the window, then return zero.
    Destroy,
    /// Post the quit message, then return zero.
    PostQuit,
    /// Hand the message to the default window procedure.
    Default,
}

/// The window procedure's decision for the message numbered `msg`.
pub fn window_action(msg: u32) -> (r: WindowAction)
    ensures
        r == match spec_wm(msg) {
            WM::SIZE => WindowAction::Handled,
            WM::CLOSE => WindowAction::Destroy,
            WM::DESTROY => WindowAction::PostQuit,
            _ => WindowAction::Default,
        },
{
    match WM::from(msg) {
        WM::SIZE => WindowAction::Handled,
        WM::CLOSE => WindowAction::Destroy,
        WM::DESTROY => WindowAction::PostQuit,
        _ => WindowAction::Default,
    }
}

/// Whether the message loop ends on the message numbered `msg`; every other
/// message is translated and dispatched.
pub fn is_quit(msg: u32) -> (r: bool)
    ensures
        r == (spec_wm(msg) == WM::QUIT),
{
    match WM::from(msg) {
        WM::QUIT => true,
        _ => false,
    }
}

/// The size of a pixel format descriptor in bytes, as the platform defines it.
pub const PFD_SIZE: u16 = 40;

pub const PFD_DRAW_TO_WINDOW: u32 = 0x00000004;

pub const PFD_SUPPORT_OPENGL: u32 = 0x00000020;

pub const PFD_DOUBLEBUFFER: u32 = 0x00000001;

pub const PFD_TYPE_RGBA: u8 = 0;

pub const PFD_MAIN_PLANE: u8 = 0;

/// The pixel format a window's drawing surface asks for.
#[allow(non_snake_case)]
#[derive(Clone, Copy, Debug, PartialEq, Eq, Structural)]
pub struct PIXELFORMATDESCRIPTOR {
    pub nSize: u16,
    pub nVersion: u16,
    pub dwFlags: u32,
    pub iPixelType: u8,
    pub cColorBits: u8,
    pub cRedBits: u8,
    pub cRedShift: u8,
    pub cGreenBits: u8,
    pub cGreenShift: u8,
    pub cBlueBits: u8,
    pub cBlueShift: u8,
    pub cAlphaBits: u8,
    pub cAlphaShift: u8,
    pub cAccumBits: u8,
    pub cAccumRedBits: u8,
    pub cAccumGreenBits: u8,
    pub cAccumBlueBits: u8,
    pub cAccumAlphaBits: u8,
    pub cDepthBits: u8,
    pub cStencilBits: u8,
    pub cAuxBuffers: u8,
    pub iLayerType: u8,
    pub bReserved: u8,
    pub dwLayerMask: u32,
    pub dwVisibleMask: u32,
    pub dwDamageMask: u32,
}

impl PIXELFORMATDESCRIPTOR {
    /// A double-buffered RGBA format for OpenGL drawing to a window, with
    /// 32 colour bits, a 24-bit depth buffer and an 8-bit stencil buffer.
    pub fn new() -> (r: PIXELFORMATDESCRIPTOR)
        ensures
            r.nSize == PFD_SIZE,
            r.nVersion == 1,
            r.dwFlags == PFD_DRAW_TO_WINDOW | PFD_SUPPORT_OPENGL | PFD_DOUBLEBUFFER,
            r.iPixelType == PFD_TYPE_RGBA,
            r.cColorBits == 32,
            r.cDepthBits == 24,
            r.cStencilBits == 8,
            r.iLayerType == PFD_MAIN_PLANE,
            r.cRedBits == 0 && r.cRedShift == 0 && r.cGreenBits == 0 && r.cGreenShift == 0,
            r.cBlueBits == 0 && r.cBlueShift == 0 && r.cAlphaBits == 0 && r.cAlphaShift == 0,
            r.cAccumBits == 0 && r.cAccumRedBits == 0 && r.cAccumGreenBits == 0,
            r.cAccumBlueBits == 0 && r.cAccumAlphaBits == 0,
            r.cAuxBuffers == 0 && r.bReserved == 0,
            r.dwLayerMask == 0 && r.dwVisibleMask == 0 && r.dwDamageMask == 0,
    {
        PIXELFORMATDESCRIPTOR {
            nSize: PFD_SIZE,
            nVersion: 1,
            dwFlags: PFD_DRAW_TO_WINDOW | PFD_SUPPORT_OPENGL | PFD_DOUBLEBUFFER,
            iPixelType: PFD_TYPE_RGBA,
            cColorBits: 32,
            cRedBits: 0,
            cRedShift: 0,
            cGreenBits: 0,
            cGreenShift: 0,
            cBlueBits: 0,
            cBlueShift: 0,
            cAlphaBits: 0,
            cAlphaShift: 0,
            cAccumBits: 0,
            cAccumRedBits: 0,
            cAccumGreenBits: 0,
            cAccumBlueBits: 0,
            cAccumAlphaBits: 0,
            cDepthBits: 24,
            cStencilBits: 8,
            cAuxBuffers: 0,
            iLayerType: PFD_MAIN_PLANE,
            bReserved: 0,
            dwLayerMask: 0,
            dwVisibleMask: 0,
            dwDamageMask: 0,
        }
    }
}

} // verus!
