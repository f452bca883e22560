//! Headless core of a progressive compute renderer for four-dimensional scenes.
//!
//! The crate holds the state that a frame is rendered from (camera, hyperspheres,
//! sample counter), the byte layouts that the compute programs read, and the
//! per-frame decisions: when surfaces are recreated, when the scene buffer grows,
//! how many workgroups are dispatched and when the sample counter restarts.
//! Device work is left to the caller, which carries out the plan of each frame.

pub mod app;
pub mod camera;
pub mod dispatch;
pub mod encoding;
pub mod laws;
pub mod scene;
pub mod scene_buffer;
pub mod surface;

pub use crate::app::App;
