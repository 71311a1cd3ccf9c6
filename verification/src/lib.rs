//! The decision core of a single-window graphics host: one window, one
//! presentation surface, one immediate-mode overlay drawn over a fixed scene.
//!
//! The host itself performs every window and GPU operation. This crate decides
//! what the host does next and in which order, and keeps the model of the
//! state that those operations act on.

pub mod graphics;
pub mod orchestrator;
pub mod overlay;
pub mod surface;
