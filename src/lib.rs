//! Session, swapchain and frame sequencing for a stereo XR rendering loop.
//!
//! The runtime calls themselves (waiting for a frame, acquiring an image,
//! submitting layers) are made by the host; this library decides which call
//! comes next and keeps the bookkeeping that the runtime protocol demands.
pub mod error;
pub mod session;
pub mod swapchain;
pub mod frame_loop;
