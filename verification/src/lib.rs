//! A presentation harness for interactive sketches: a fixed-timestep clock,
//! window placement and pointer remapping, a low-resolution render target,
//! the per-frame ordering of a GUI overlay's GPU work, and the loop that
//! ties them together.
//!
//! Time is counted in whole ticks and positions in whole pixels, so that
//! every statement made here is exact. The library decides and plans; the
//! calls on the window host and on the GPU are the caller's, who is told
//! which to make and in what order.

pub mod app_loop;
pub mod clock;
pub mod config;
pub mod error;
pub mod geometry;
pub mod input;
pub mod ordering;
pub mod overlay;
pub mod placement;
pub mod readout;
pub mod target;
pub mod texture;
