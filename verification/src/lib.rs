//! Bookkeeping core of a small instanced 2D renderer.
//!
//! The library owns everything about a frame that can be stated exactly:
//! fixed-capacity instance buffers and their byte layout, the stable
//! ordering of draw requests by layer, the per-frame fill/clear protocol,
//! and the camera bookkeeping. Device handles, shader plumbing and
//! floating-point arithmetic live outside, in the binary that drives a GPU
//! with the plans this library produces.

pub mod bucket;
pub mod camera;
pub mod debug;
pub mod instance;
pub mod layers;
pub mod pipeline;
pub mod state;
