//! Lifetime, pooling and recycling of GPU memory allocations behind
//! stable, generation-checked handles.
//!
//! Every live resource is addressed through a generation-checked arena, so
//! stale handles are detected instead of corrupting memory. Transient
//! buffers are carved out of linearly-allocated blocks that a pool hands
//! out, and recycles once per frame. The calls into the device allocator
//! itself are the caller's: this crate decides what to ask the allocator
//! for and owns the records of what came back.

/// Generation-checked, index-addressed containers.
pub mod arena;

/// Buffers and buffer views.
pub mod buffer;

/// Blocks of transient buffers and the pool that recycles them.
pub mod buffer_block;

/// Device-side decisions behind buffer creation.
pub mod device;

/// Plain-value models of device flag words.
pub mod flags;

/// The device allocation gateway's interface, as plain values.
pub mod gateway;

/// Images and image views.
pub mod image;

/// Resource management.
pub mod resource;

/// Utilities for working with pixel formats.
pub mod format;

/// The explicit-destruction discipline: diagnostic tags and the marker
/// that owned resources carry.
pub mod nodrop;

pub use arena::Arena;
pub use arena::Handle;
pub use buffer::Buffer;
pub use buffer::BufferCreateInfo;
pub use buffer::BufferUsageDomain;
pub use buffer::BufferView;
pub use buffer::BufferViewCreateInfo;
pub use buffer_block::BlockAllocationPlan;
pub use buffer_block::BlockRecycleError;
pub use buffer_block::BlockRequest;
pub use buffer_block::BufferBlock;
pub use buffer_block::BufferBlockBuffer;
pub use buffer_block::BufferBlockPool;
pub use buffer_block::OwnedBufferBlock;
pub use device::AllocationCreateDesc;
pub use device::BufferCreateDesc;
pub use device::QueueTopology;
pub use device::SharingMode;
pub use gateway::AllocationInfo;
pub use gateway::AllocatorPoolId;
pub use gateway::GatewayAllocation;
pub use gateway::GatewayError;
pub use gateway::MemoryTypes;
pub use gateway::PoolCreateDesc;
pub use image::Image;
pub use image::ImageCreateInfo;
pub use image::ImageLayoutType;
pub use image::ImageUsageDomain;
pub use image::ImageView;
pub use image::ImageViewCreateInfo;
pub use image::InitialImageData;
pub use nodrop::NoDrop;
pub use nodrop::Tag;
pub use resource::BufferBlockSet;
pub use resource::BufferHandle;
pub use resource::BufferViewHandle;
pub use resource::ImageHandle;
pub use resource::ResourceSet;
