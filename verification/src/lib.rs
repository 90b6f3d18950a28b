//! Verified model of an offscreen-render-then-composite pipeline: a UI layer
//! is rendered by an embedded engine into an offscreen GPU surface under a
//! dedicated rendering context, then blended over application-rendered content
//! in the main context, once per frame.
//!
//! The library holds the decision logic: pixel blending, surface lifecycle,
//! engine message sequencing, and the per-frame command schedule. An embedding
//! executes the emitted commands against the real window system and GPU.

pub mod canvas;
pub mod color;
pub mod command;
pub mod engine;
pub mod pipeline;
pub mod surface;
