//! Input entities: editable fields that consume key presses.

pub mod search;
