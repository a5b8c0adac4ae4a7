//! Verified core of an orbit-camera 3D viewer.
//!
//! The library models the camera's orbit state, the view-projection
//! parameters handed to the presentation layer each frame, the pipeline
//! toggle, and the surface-lifecycle state machine that gates rendering.
//! All quantities are held in exact fixed-point form; the surrounding
//! application evaluates the floating-point matrices and drives the GPU
//! from the values this crate derives.

pub mod camera;
pub mod render;
