//! Render-state logic of a minimal rasterizing front end: the fixed quad
//! geometry, its vertex layout, surface configuration and resizing, the
//! bind-group layouts the pipeline declares, texture upload layout and the
//! per-frame submission protocol.
pub mod error;
pub mod events;
pub mod frame;
pub mod geometry;
pub mod layout;
pub mod pipeline;
pub mod surface;
pub mod texture;
