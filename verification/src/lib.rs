//! Core logic of a cross-fading image slideshow.
//!
//! The library holds the decision-making half of the renderer: which two
//! slides are on screen, how far the blend between them has progressed,
//! which texture slot needs a fresh upload, and when the drawing surface
//! must be resynchronized with its container. All of it is plain data and
//! integer arithmetic, verified; the host supplies the clock, the decoded
//! images and the GPU, and performs the actions this library decides on.

pub mod image_set;
pub mod loader;
pub mod render_loop;
pub mod resize;
pub mod scheduler;
pub mod texture;
