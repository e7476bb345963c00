//! A layer over an explicit, command-buffer based graphics API: device memory,
//! descriptor sets, an arena of long-lived objects, and the recording and
//! submission of command buffers.
//!
//! The library decides; it makes no native call. It says where an allocation
//! lies, which pool page a descriptor set comes from, whether a handle still
//! resolves, and which native commands a command buffer holds when it is
//! submitted. The caller carries that out on the device.

pub mod allocator;
pub mod app_state;
pub mod command;
pub mod command_buffer;
pub mod descriptor_set;
pub mod geometry;
pub mod gltf_loader;
pub mod gpu;
pub mod heap;
pub mod image_format;
pub mod material;
pub mod material_instance;
pub mod render_pass;
pub mod resource;
pub mod scene;
pub mod types;
pub mod vk;

pub use crate::allocator::{AllocationError, MemoryAllocation, MemoryAllocator, MemoryDomain};
pub use crate::command_buffer::{
    BufferMemoryBarrier, CommandBuffer, CommandBufferSubmitInfo, ImageMemoryBarrier,
    PipelineBarrierInfo, RenderPassCommand, ScopedDebugLabel, ScopedDebugLabelInner, Submission,
    UsageViolation,
};
pub use crate::descriptor_set::{
    BufferRange, DescriptorInfo, DescriptorSetAllocation, DescriptorSetAllocator,
    DescriptorSetInfo, DescriptorType, SamplerState, ShaderStage,
};
pub use crate::gpu::{Gpu, QueueType};
pub use crate::image_format::{ImageFormat, ToVk};
pub use crate::render_pass::{
    AttachmentStoreOp, BeginRenderPassInfo, ColorAttachment, ColorLoadOp, DepthAttachment,
    DepthLoadOp, StencilAttachment, StencilLoadOp,
};
pub use crate::resource::{ResourceHandle, ResourceMap};
pub use crate::types::{
    GPUFence, GPUSemaphore, GpuBuffer, GpuDescriptorSet, GpuFramebuffer, GpuImage, GpuImageView,
    GpuSampler, GpuShaderModule, Pipeline,
};
