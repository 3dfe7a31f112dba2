//! What a shaderpack describes: pipelines, passes, materials and resources.
//!
//! The interface takes these records as they are and reads none of their text.

pub mod shaderpack_data;
