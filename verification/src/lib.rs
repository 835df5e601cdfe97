//! Staged construction and frame-loop logic for a textured-quad renderer.
//!
//! The GPU driver and the windowing system are opaque capability providers;
//! everything they report or decide enters this library as plain values.
//! The library itself holds the parts that are worth stating precisely:
//! the strictly increasing build-order discipline of the two builders, the
//! derivation of the swapchain configuration, the renderer's buffer and
//! bind-group bookkeeping, and the frame loop's event and retry decisions.

pub mod base;
pub mod frame;
pub mod framework;
pub mod order;
pub mod tex_array;
pub mod texture;
