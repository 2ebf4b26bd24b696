//! The framebuffer device: its screen information, the list of devices that
//! the kernel knows, and the layout of a double buffer.

pub mod double;
pub mod fbio;
pub mod proc;
