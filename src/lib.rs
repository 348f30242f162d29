//! Decision logic of a small Vulkan rendering harness: device and surface
//! negotiation, swapchain and resource bookkeeping, memory planning and the
//! pipelined frame-submission protocol. Every device call is made by the
//! embedding program; this crate decides what to ask for and checks the
//! answers.

pub mod codec;
pub mod context;
pub mod device;
pub mod frame;
pub mod gl;
pub mod memory;
pub mod obj;
pub mod pipeline;
pub mod registry;
pub mod resources;
pub mod surface;
pub mod swapchain;
