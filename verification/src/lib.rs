//! Verified model of a minimal GPU render loop: a window surface is
//! configured once, reconfigured on resize, and a single triangle is drawn
//! each frame. The library holds the protocol logic — surface configuration,
//! vertex layout and encoding, pipeline-build validation, the per-frame
//! command sequence and its ordering — while the platform window and GPU
//! device are driven by a thin unverified shell that executes the actions
//! this library decides on.

pub mod config;
pub mod frame;
pub mod lifecycle;
pub mod pipeline;
pub mod vertex;
