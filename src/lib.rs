//! Window and OpenGL-context bootstrap logic: text encoding for the Win32 wide-string API,
//! the decisions of the context negotiation, the window procedure and the message loop, and a
//! lazily filled table of OpenGL entry points.

pub mod str_util;
pub mod win32;
pub mod wgl;
pub mod negotiator;
pub mod window_proc;
pub mod gl;
pub mod bootstrap;
