//! The verified core of an interactive GPU visualisation host: the byte
//! layout of the parameter blocks and debug records shared with the shading
//! programs, the binding-slot contract of the resource graph and its build
//! order, the modal keyboard controller, the decoding of debug-buffer
//! readbacks, and the per-frame decisions of the event loop (resize, surface
//! loss, focus loss).
//!
//! Everything that touches the device, the window or floating point stays
//! with the host, which performs what these modules decide.
pub mod codec;
pub mod controls;
pub mod frame;
pub mod keys;
pub mod layout;
pub mod params;
pub mod readback;
