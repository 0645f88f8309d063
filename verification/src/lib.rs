//! Verified control core of a small CPU ray tracer.
//!
//! The numeric kernels of a ray tracer (vector algebra, root finding,
//! illumination) work on floating-point values. What surrounds them is
//! discrete: how pixels are addressed, which of several hits is the visible
//! one, when a ray may bounce again, how input moves the camera and where
//! finished colours land in the frame buffer. This crate holds that discrete
//! part, each function with a contract that the verifier checks.

pub mod camera;
pub mod event_manager;
pub mod gui;
pub mod intersection;
pub mod renderer;
pub mod shading;
pub mod viewport;
