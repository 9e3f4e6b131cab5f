//! A click-through, always-on-top overlay that outlines a shared, producer-fed
//! list of rectangles. This crate holds the overlay's decisions: geometry,
//! the per-frame draw plan, frame pacing, and the visibility and device
//! resource state machine that drives the render loop.

pub mod error;
pub mod geometry;
pub mod frame;
pub mod state;
pub mod pacing;
pub mod buffer;
pub mod overlay;
