//! A render hardware interface: one device, resource and command model
//! over several native graphics backends.
//!
//! The crate keeps the portable side of the interface and proves it: which
//! adapter can be used, which heap memory comes from, what a command list
//! holds, when a submission may start, which fences are signaled. It never
//! calls a driver. From the Vulkan bindings it takes the numbers and names
//! that they give to result codes, flags and extensions, and nothing else.
//! Whoever calls the driver asks the crate what to do and tells it how the
//! native API answered.

pub mod logging;
pub mod rhi;
pub mod settings;
pub mod shaderpack;
