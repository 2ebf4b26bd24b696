//! Input and framebuffer support for a GUI running directly on the Linux
//! framebuffer: decoding of raw input-device events into pointer and key
//! events, and the arithmetic around framebuffer geometry and pixel formats.

pub mod error;
pub mod input;
pub mod linuxfb;
pub mod pixels;
pub mod platform;
pub mod text;
