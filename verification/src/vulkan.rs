//! Raw values of the Vulkan enumerations and flag bits the engine decides on.
//!
//! Vulkan enumerations are 32-bit signed integers and flag sets are 32-bit masks; the
//! library works on these raw values and the application converts them to and from
//! the typed wrappers of its Vulkan bindings.
use vstd::prelude::*;

verus! {

// VkFormat
pub const FORMAT_UNDEFINED: i32 = 0;
pub const FORMAT_R8G8B8A8_UNORM: i32 = 37;
pub const FORMAT_R8G8B8A8_SRGB: i32 = 43;
pub const FORMAT_B8G8R8A8_SRGB: i32 = 50;
pub const FORMAT_R16G16_SFLOAT: i32 = 83;
pub const FORMAT_R16G16B16A16_SFLOAT: i32 = 97;
pub const FORMAT_R32_UINT: i32 = 98;
pub const FORMAT_R32_SINT: i32 = 99;
pub const FORMAT_R32_SFLOAT: i32 = 100;
pub const FORMAT_R32G32_UINT: i32 = 101;
pub const FORMAT_R32G32_SINT: i32 = 102;
pub const FORMAT_R32G32_SFLOAT: i32 = 103;
pub const FORMAT_R32G32B32_UINT: i32 = 104;
pub const FORMAT_R32G32B32_SINT: i32 = 105;
pub const FORMAT_R32G32B32_SFLOAT: i32 = 106;
pub const FORMAT_R32G32B32A32_UINT: i32 = 107;
pub const FORMAT_R32G32B32A32_SINT: i32 = 108;
pub const FORMAT_R32G32B32A32_SFLOAT: i32 = 109;
pub const FORMAT_D32_SFLOAT: i32 = 126;
pub const FORMAT_D24_UNORM_S8_UINT: i32 = 129;
pub const FORMAT_D32_SFLOAT_S8_UINT: i32 = 130;

// VkColorSpaceKHR
pub const COLOR_SPACE_SRGB_NONLINEAR: i32 = 0;

// VkPresentModeKHR
pub const PRESENT_MODE_IMMEDIATE: i32 = 0;
pub const PRESENT_MODE_MAILBOX: i32 = 1;
pub const PRESENT_MODE_FIFO: i32 = 2;
pub const PRESENT_MODE_FIFO_RELAXED: i32 = 3;

// VkSharingMode
pub const SHARING_MODE_EXCLUSIVE: i32 = 0;
pub const SHARING_MODE_CONCURRENT: i32 = 1;

// VkImageLayout
pub const IMAGE_LAYOUT_UNDEFINED: i32 = 0;
pub const IMAGE_LAYOUT_COLOR_ATTACHMENT_OPTIMAL: i32 = 2;
pub const IMAGE_LAYOUT_DEPTH_STENCIL_ATTACHMENT_OPTIMAL: i32 = 3;
pub const IMAGE_LAYOUT_DEPTH_STENCIL_READ_ONLY_OPTIMAL: i32 = 4;
pub const IMAGE_LAYOUT_SHADER_READ_ONLY_OPTIMAL: i32 = 5;
pub const IMAGE_LAYOUT_TRANSFER_DST_OPTIMAL: i32 = 7;
pub const IMAGE_LAYOUT_DEPTH_READ_ONLY_STENCIL_ATTACHMENT_OPTIMAL: i32 = 1000117000;
pub const IMAGE_LAYOUT_DEPTH_ATTACHMENT_STENCIL_READ_ONLY_OPTIMAL: i32 = 1000117001;
pub const IMAGE_LAYOUT_DEPTH_ATTACHMENT_OPTIMAL: i32 = 1000241000;
pub const IMAGE_LAYOUT_DEPTH_READ_ONLY_OPTIMAL: i32 = 1000241001;
pub const IMAGE_LAYOUT_STENCIL_ATTACHMENT_OPTIMAL: i32 = 1000241002;
pub const IMAGE_LAYOUT_STENCIL_READ_ONLY_OPTIMAL: i32 = 1000241003;
pub const IMAGE_LAYOUT_PRESENT_SRC: i32 = 1000001002;

// VkAttachmentLoadOp and VkAttachmentStoreOp
pub const ATTACHMENT_LOAD_OP_LOAD: i32 = 0;
pub const ATTACHMENT_LOAD_OP_CLEAR: i32 = 1;
pub const ATTACHMENT_LOAD_OP_DONT_CARE: i32 = 2;
pub const ATTACHMENT_STORE_OP_STORE: i32 = 0;
pub const ATTACHMENT_STORE_OP_DONT_CARE: i32 = 1;

// VkIndexType
pub const INDEX_TYPE_UINT16: i32 = 0;
pub const INDEX_TYPE_UINT32: i32 = 1;

// VkVertexInputRate
pub const VERTEX_INPUT_RATE_VERTEX: i32 = 0;
pub const VERTEX_INPUT_RATE_INSTANCE: i32 = 1;

// VkAccessFlagBits
pub const ACCESS_SHADER_READ: u32 = 0x20;
pub const ACCESS_COLOR_ATTACHMENT_READ: u32 = 0x80;
pub const ACCESS_COLOR_ATTACHMENT_WRITE: u32 = 0x100;
pub const ACCESS_DEPTH_STENCIL_ATTACHMENT_READ: u32 = 0x200;
pub const ACCESS_DEPTH_STENCIL_ATTACHMENT_WRITE: u32 = 0x400;
pub const ACCESS_TRANSFER_WRITE: u32 = 0x1000;

// VkPipelineStageFlagBits
pub const PIPELINE_STAGE_TOP_OF_PIPE: u32 = 0x1;
pub const PIPELINE_STAGE_FRAGMENT_SHADER: u32 = 0x80;
pub const PIPELINE_STAGE_EARLY_FRAGMENT_TESTS: u32 = 0x100;
pub const PIPELINE_STAGE_LATE_FRAGMENT_TESTS: u32 = 0x200;
pub const PIPELINE_STAGE_COLOR_ATTACHMENT_OUTPUT: u32 = 0x400;
pub const PIPELINE_STAGE_TRANSFER: u32 = 0x1000;

// VkImageAspectFlagBits
pub const IMAGE_ASPECT_COLOR: u32 = 0x1;
pub const IMAGE_ASPECT_DEPTH: u32 = 0x2;
pub const IMAGE_ASPECT_STENCIL: u32 = 0x4;

// VkImageUsageFlagBits
pub const IMAGE_USAGE_TRANSFER_DST: u32 = 0x2;
pub const IMAGE_USAGE_SAMPLED: u32 = 0x4;
pub const IMAGE_USAGE_COLOR_ATTACHMENT: u32 = 0x10;
pub const IMAGE_USAGE_DEPTH_STENCIL_ATTACHMENT: u32 = 0x20;

// VkBufferUsageFlagBits
pub const BUFFER_USAGE_TRANSFER_SRC: u32 = 0x1;
pub const BUFFER_USAGE_TRANSFER_DST: u32 = 0x2;
pub const BUFFER_USAGE_UNIFORM_BUFFER: u32 = 0x10;
pub const BUFFER_USAGE_INDEX_BUFFER: u32 = 0x40;
pub const BUFFER_USAGE_VERTEX_BUFFER: u32 = 0x80;

// VkMemoryPropertyFlagBits
pub const MEMORY_PROPERTY_DEVICE_LOCAL: u32 = 0x1;
pub const MEMORY_PROPERTY_HOST_VISIBLE: u32 = 0x2;
pub const MEMORY_PROPERTY_HOST_COHERENT: u32 = 0x4;

// VkQueueFlagBits
pub const QUEUE_GRAPHICS: u32 = 0x1;

/// VK_SUBPASS_EXTERNAL
pub const SUBPASS_EXTERNAL: u32 = 0xFFFF_FFFF;

/// Severities of the validation layer's debug messages.
pub const DEBUG_SEVERITY_VERBOSE: u32 = 0x1;
pub const DEBUG_SEVERITY_INFO: u32 = 0x10;
pub const DEBUG_SEVERITY_WARNING: u32 = 0x100;
pub const DEBUG_SEVERITY_ERROR: u32 = 0x1000;

/// VkDescriptorType
pub const DESCRIPTOR_TYPE_COMBINED_IMAGE_SAMPLER: i32 = 1;
pub const DESCRIPTOR_TYPE_UNIFORM_BUFFER: i32 = 6;

/// VK_SHADER_STAGE_ALL_GRAPHICS
pub const SHADER_STAGE_ALL_GRAPHICS: u32 = 0x1F;

/// VkImageTiling
pub const IMAGE_TILING_OPTIMAL: i32 = 0;
pub const IMAGE_TILING_LINEAR: i32 = 1;

/// VkFormatFeatureFlagBits
pub const FORMAT_FEATURE_COLOR_ATTACHMENT: u32 = 0x80;
pub const FORMAT_FEATURE_DEPTH_STENCIL_ATTACHMENT: u32 = 0x200;

} // verus!
