//! Plain-value models of the device-level flag words and enumerations the
//! allocator speaks. Each constant carries the numeric value the device
//! API assigns to it, so a caller that owns the real bindings can convert
//! with a raw-value cast in either direction.

use vstd::prelude::*;

verus! {

// Buffer usage bits.
/// The buffer can source transfer operations.
pub const BUFFER_USAGE_TRANSFER_SRC: u32 = 0x1;
/// The buffer can receive transfer operations.
pub const BUFFER_USAGE_TRANSFER_DST: u32 = 0x2;
/// The buffer can back a uniform texel view.
pub const BUFFER_USAGE_UNIFORM_TEXEL_BUFFER: u32 = 0x4;
/// The buffer can back a storage texel view.
pub const BUFFER_USAGE_STORAGE_TEXEL_BUFFER: u32 = 0x8;
/// The buffer can be bound as a uniform buffer.
pub const BUFFER_USAGE_UNIFORM_BUFFER: u32 = 0x10;
/// The buffer can be bound as a storage buffer.
pub const BUFFER_USAGE_STORAGE_BUFFER: u32 = 0x20;
/// The buffer can source fixed-function index fetch.
pub const BUFFER_USAGE_INDEX_BUFFER: u32 = 0x40;
/// The buffer can source fixed-function vertex fetch.
pub const BUFFER_USAGE_VERTEX_BUFFER: u32 = 0x80;
/// The buffer can source indirect draw parameters.
pub const BUFFER_USAGE_INDIRECT_BUFFER: u32 = 0x100;

// Image usage bits.
/// The image can source transfer operations.
pub const IMAGE_USAGE_TRANSFER_SRC: u32 = 0x1;
/// The image can receive transfer operations.
pub const IMAGE_USAGE_TRANSFER_DST: u32 = 0x2;
/// The image can be sampled from.
pub const IMAGE_USAGE_SAMPLED: u32 = 0x4;
/// The image can be used as a storage image.
pub const IMAGE_USAGE_STORAGE: u32 = 0x8;
/// The image can be a framebuffer color attachment.
pub const IMAGE_USAGE_COLOR_ATTACHMENT: u32 = 0x10;
/// The image can be a framebuffer depth/stencil attachment.
pub const IMAGE_USAGE_DEPTH_STENCIL_ATTACHMENT: u32 = 0x20;
/// The image's data is not needed outside of rendering.
pub const IMAGE_USAGE_TRANSIENT_ATTACHMENT: u32 = 0x40;
/// The image can be a framebuffer input attachment.
pub const IMAGE_USAGE_INPUT_ATTACHMENT: u32 = 0x80;

// Pipeline stage bits.
/// Draw/dispatch indirect command fetch.
pub const PIPELINE_STAGE_DRAW_INDIRECT: u32 = 0x2;
/// Vertex and index fetch.
pub const PIPELINE_STAGE_VERTEX_INPUT: u32 = 0x4;
/// Vertex shading.
pub const PIPELINE_STAGE_VERTEX_SHADER: u32 = 0x8;
/// Fragment shading.
pub const PIPELINE_STAGE_FRAGMENT_SHADER: u32 = 0x80;
/// Early fragment (depth and stencil) tests.
pub const PIPELINE_STAGE_EARLY_FRAGMENT_TESTS: u32 = 0x100;
/// Late fragment (depth and stencil) tests.
pub const PIPELINE_STAGE_LATE_FRAGMENT_TESTS: u32 = 0x200;
/// Color attachment writes.
pub const PIPELINE_STAGE_COLOR_ATTACHMENT_OUTPUT: u32 = 0x400;
/// Compute shading.
pub const PIPELINE_STAGE_COMPUTE_SHADER: u32 = 0x800;
/// Transfer and copy operations.
pub const PIPELINE_STAGE_TRANSFER: u32 = 0x1000;

// Access bits.
/// Indirect command reads.
pub const ACCESS_INDIRECT_COMMAND_READ: u32 = 0x1;
/// Index reads.
pub const ACCESS_INDEX_READ: u32 = 0x2;
/// Vertex attribute reads.
pub const ACCESS_VERTEX_ATTRIBUTE_READ: u32 = 0x4;
/// Uniform buffer reads.
pub const ACCESS_UNIFORM_READ: u32 = 0x8;
/// Input attachment reads.
pub const ACCESS_INPUT_ATTACHMENT_READ: u32 = 0x10;
/// Shader reads.
pub const ACCESS_SHADER_READ: u32 = 0x20;
/// Shader writes.
pub const ACCESS_SHADER_WRITE: u32 = 0x40;
/// Color attachment reads.
pub const ACCESS_COLOR_ATTACHMENT_READ: u32 = 0x80;
/// Color attachment writes.
pub const ACCESS_COLOR_ATTACHMENT_WRITE: u32 = 0x100;
/// Depth/stencil attachment reads.
pub const ACCESS_DEPTH_STENCIL_ATTACHMENT_READ: u32 = 0x200;
/// Depth/stencil attachment writes.
pub const ACCESS_DEPTH_STENCIL_ATTACHMENT_WRITE: u32 = 0x400;
/// Transfer reads.
pub const ACCESS_TRANSFER_READ: u32 = 0x800;
/// Transfer writes.
pub const ACCESS_TRANSFER_WRITE: u32 = 0x1000;

// Format feature bits.
/// The format can be used for sampled images.
pub const FORMAT_FEATURE_SAMPLED_IMAGE: u32 = 0x1;
/// The format can be used for storage images.
pub const FORMAT_FEATURE_STORAGE_IMAGE: u32 = 0x2;
/// The format can be used for color attachments.
pub const FORMAT_FEATURE_COLOR_ATTACHMENT: u32 = 0x80;
/// The format can be used for depth/stencil attachments.
pub const FORMAT_FEATURE_DEPTH_STENCIL_ATTACHMENT: u32 = 0x200;

// Memory property bits.
/// Memory that lives on the device.
pub const MEMORY_PROPERTY_DEVICE_LOCAL: u32 = 0x1;
/// Memory the host can map.
pub const MEMORY_PROPERTY_HOST_VISIBLE: u32 = 0x2;
/// Memory with host i/o coherency.
pub const MEMORY_PROPERTY_HOST_COHERENT: u32 = 0x4;
/// Memory cached by the host.
pub const MEMORY_PROPERTY_HOST_CACHED: u32 = 0x8;

// Sample counts.
/// A single sample per pixel.
pub const SAMPLE_COUNT_1: u32 = 0x1;

// Image layouts (raw device enumeration values).
/// Contents undefined.
pub const IMAGE_LAYOUT_UNDEFINED: i32 = 0;
/// Usable for any kind of access.
pub const IMAGE_LAYOUT_GENERAL: i32 = 1;
/// Optimal for color attachment read/write.
pub const IMAGE_LAYOUT_COLOR_ATTACHMENT_OPTIMAL: i32 = 2;
/// Optimal for depth/stencil attachment read/write.
pub const IMAGE_LAYOUT_DEPTH_STENCIL_ATTACHMENT_OPTIMAL: i32 = 3;
/// Optimal for read-only depth/stencil plus shader access.
pub const IMAGE_LAYOUT_DEPTH_STENCIL_READ_ONLY_OPTIMAL: i32 = 4;
/// Optimal for read-only shader access.
pub const IMAGE_LAYOUT_SHADER_READ_ONLY_OPTIMAL: i32 = 5;
/// Optimal as a transfer source.
pub const IMAGE_LAYOUT_TRANSFER_SRC_OPTIMAL: i32 = 6;
/// Optimal as a transfer destination.
pub const IMAGE_LAYOUT_TRANSFER_DST_OPTIMAL: i32 = 7;
/// Read-only stencil with writable depth attachment.
pub const IMAGE_LAYOUT_DEPTH_ATTACHMENT_STENCIL_READ_ONLY_OPTIMAL: i32 = 1000117001;

// Component swizzles (raw device enumeration values).
/// Identity swizzle.
pub const COMPONENT_SWIZZLE_IDENTITY: i32 = 0;
/// Take the red channel.
pub const COMPONENT_SWIZZLE_R: i32 = 3;
/// Take the green channel.
pub const COMPONENT_SWIZZLE_G: i32 = 4;
/// Take the blue channel.
pub const COMPONENT_SWIZZLE_B: i32 = 5;
/// Take the alpha channel.
pub const COMPONENT_SWIZZLE_A: i32 = 6;

} // verus!
