//! The settings of the renderer, and who is told when they change.

pub mod settings_structs;
pub mod settings_traits;
