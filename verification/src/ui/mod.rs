//! Window state consumed by the renderer.

pub mod states;
