//! The render hardware interface.
//!
//! A renderer talks to the GPU through the traits of this module. Each
//! supported native API realizes them. The types here keep the portable
//! side of every object: what was asked for, which state it is in and
//! what the native API has to be told. Native handles stay with the
//! caller, keyed by the tokens that this module hands out.

pub mod dx12;
pub mod rhi_descriptors;
pub mod rhi_device;
pub mod rhi_enums;
pub mod rhi_commands;
pub mod rhi_memory;
pub mod rhi_proofs;
pub mod rhi_queue;
pub mod rhi_structs;
pub mod rhi_traits;
pub mod rhi_sync;
pub mod vulkan;
