//! A circle in a window, which falls, jumps and bounces off the floor.
//!
//! The library decides what is drawn and what happens when. It talks to the graphics device
//! and to the windowing system through plain values: whoever runs it takes the actions that it
//! asks for and hands it what came of them.

pub mod app;
pub mod bytes;
pub mod circle;
pub mod device;
pub mod laws;
pub mod pipeline;
pub mod scalar;
pub mod scene_laws;
pub mod state;
pub mod step_laws;
pub mod surface;
pub mod uniforms;
pub mod vertex;
