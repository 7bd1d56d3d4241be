use vulkanalia::vk;
use vulkan_rust::vulkan::{
    FORMAT_UNDEFINED,
    FORMAT_R8G8B8A8_UNORM,
    FORMAT_R8G8B8A8_SRGB,
    FORMAT_B8G8R8A8_SRGB,
    FORMAT_R16G16_SFLOAT,
    FORMAT_R16G16B16A16_SFLOAT,
    FORMAT_R32_UINT,
    FORMAT_R32_SINT,
    FORMAT_R32_SFLOAT,
    FORMAT_R32G32_UINT,
    FORMAT_R32G32_SINT,
    FORMAT_R32G32_SFLOAT,
    FORMAT_R32G32B32_UINT,
    FORMAT_R32G32B32_SINT,
    FORMAT_R32G32B32_SFLOAT,
    FORMAT_R32G32B32A32_UINT,
    FORMAT_R32G32B32A32_SINT,
    FORMAT_R32G32B32A32_SFLOAT,
    FORMAT_D32_SFLOAT,
    FORMAT_D24_UNORM_S8_UINT,
    FORMAT_D32_SFLOAT_S8_UINT,
    COLOR_SPACE_SRGB_NONLINEAR,
    PRESENT_MODE_IMMEDIATE,
    PRESENT_MODE_MAILBOX,
    PRESENT_MODE_FIFO,
    PRESENT_MODE_FIFO_RELAXED,
    SHARING_MODE_EXCLUSIVE,
    SHARING_MODE_CONCURRENT,
    IMAGE_LAYOUT_UNDEFINED,
    IMAGE_LAYOUT_COLOR_ATTACHMENT_OPTIMAL,
    IMAGE_LAYOUT_DEPTH_STENCIL_ATTACHMENT_OPTIMAL,
    IMAGE_LAYOUT_DEPTH_STENCIL_READ_ONLY_OPTIMAL,
    IMAGE_LAYOUT_SHADER_READ_ONLY_OPTIMAL,
    IMAGE_LAYOUT_TRANSFER_DST_OPTIMAL,
    IMAGE_LAYOUT_DEPTH_READ_ONLY_STENCIL_ATTACHMENT_OPTIMAL,
    IMAGE_LAYOUT_DEPTH_ATTACHMENT_STENCIL_READ_ONLY_OPTIMAL,
    IMAGE_LAYOUT_DEPTH_ATTACHMENT_OPTIMAL,
    IMAGE_LAYOUT_DEPTH_READ_ONLY_OPTIMAL,
    IMAGE_LAYOUT_STENCIL_ATTACHMENT_OPTIMAL,
    IMAGE_LAYOUT_STENCIL_READ_ONLY_OPTIMAL,
    IMAGE_LAYOUT_PRESENT_SRC,
    ATTACHMENT_LOAD_OP_LOAD,
    ATTACHMENT_LOAD_OP_CLEAR,
    ATTACHMENT_LOAD_OP_DONT_CARE,
    ATTACHMENT_STORE_OP_STORE,
    ATTACHMENT_STORE_OP_DONT_CARE,
    INDEX_TYPE_UINT16,
    INDEX_TYPE_UINT32,
    VERTEX_INPUT_RATE_VERTEX,
    VERTEX_INPUT_RATE_INSTANCE,
    ACCESS_SHADER_READ,
    ACCESS_COLOR_ATTACHMENT_READ,
    ACCESS_COLOR_ATTACHMENT_WRITE,
    ACCESS_DEPTH_STENCIL_ATTACHMENT_READ,
    ACCESS_DEPTH_STENCIL_ATTACHMENT_WRITE,
    ACCESS_TRANSFER_WRITE,
    PIPELINE_STAGE_TOP_OF_PIPE,
    PIPELINE_STAGE_FRAGMENT_SHADER,
    PIPELINE_STAGE_EARLY_FRAGMENT_TESTS,
    PIPELINE_STAGE_LATE_FRAGMENT_TESTS,
    PIPELINE_STAGE_COLOR_ATTACHMENT_OUTPUT,
    PIPELINE_STAGE_TRANSFER,
    IMAGE_ASPECT_COLOR,
    IMAGE_ASPECT_DEPTH,
    IMAGE_ASPECT_STENCIL,
    IMAGE_USAGE_TRANSFER_DST,
    IMAGE_USAGE_SAMPLED,
    IMAGE_USAGE_COLOR_ATTACHMENT,
    IMAGE_USAGE_DEPTH_STENCIL_ATTACHMENT,
    BUFFER_USAGE_TRANSFER_SRC,
    BUFFER_USAGE_TRANSFER_DST,
    BUFFER_USAGE_UNIFORM_BUFFER,
    BUFFER_USAGE_INDEX_BUFFER,
    BUFFER_USAGE_VERTEX_BUFFER,
    MEMORY_PROPERTY_DEVICE_LOCAL,
    MEMORY_PROPERTY_HOST_VISIBLE,
    MEMORY_PROPERTY_HOST_COHERENT,
    QUEUE_GRAPHICS,
    SUBPASS_EXTERNAL,
    DEBUG_SEVERITY_VERBOSE,
    DEBUG_SEVERITY_INFO,
    DEBUG_SEVERITY_WARNING,
    DEBUG_SEVERITY_ERROR,
    DESCRIPTOR_TYPE_COMBINED_IMAGE_SAMPLER,
    DESCRIPTOR_TYPE_UNIFORM_BUFFER,
    SHADER_STAGE_ALL_GRAPHICS,
    IMAGE_TILING_OPTIMAL,
    IMAGE_TILING_LINEAR,
    FORMAT_FEATURE_COLOR_ATTACHMENT,
    FORMAT_FEATURE_DEPTH_STENCIL_ATTACHMENT,
};

#[test]
fn raw_values_match_the_vulkan_bindings() {
    assert_eq!(FORMAT_UNDEFINED, vk::Format::UNDEFINED.as_raw());
    assert_eq!(FORMAT_R8G8B8A8_UNORM, vk::Format::R8G8B8A8_UNORM.as_raw());
    assert_eq!(FORMAT_R8G8B8A8_SRGB, vk::Format::R8G8B8A8_SRGB.as_raw());
    assert_eq!(FORMAT_B8G8R8A8_SRGB, vk::Format::B8G8R8A8_SRGB.as_raw());
    assert_eq!(FORMAT_R16G16_SFLOAT, vk::Format::R16G16_SFLOAT.as_raw());
    assert_eq!(FORMAT_R16G16B16A16_SFLOAT, vk::Format::R16G16B16A16_SFLOAT.as_raw());
    assert_eq!(FORMAT_R32_UINT, vk::Format::R32_UINT.as_raw());
    assert_eq!(FORMAT_R32_SINT, vk::Format::R32_SINT.as_raw());
    assert_eq!(FORMAT_R32_SFLOAT, vk::Format::R32_SFLOAT.as_raw());
    assert_eq!(FORMAT_R32G32_UINT, vk::Format::R32G32_UINT.as_raw());
    assert_eq!(FORMAT_R32G32_SINT, vk::Format::R32G32_SINT.as_raw());
    assert_eq!(FORMAT_R32G32_SFLOAT, vk::Format::R32G32_SFLOAT.as_raw());
    assert_eq!(FORMAT_R32G32B32_UINT, vk::Format::R32G32B32_UINT.as_raw());
    assert_eq!(FORMAT_R32G32B32_SINT, vk::Format::R32G32B32_SINT.as_raw());
    assert_eq!(FORMAT_R32G32B32_SFLOAT, vk::Format::R32G32B32_SFLOAT.as_raw());
    assert_eq!(FORMAT_R32G32B32A32_UINT, vk::Format::R32G32B32A32_UINT.as_raw());
    assert_eq!(FORMAT_R32G32B32A32_SINT, vk::Format::R32G32B32A32_SINT.as_raw());
    assert_eq!(FORMAT_R32G32B32A32_SFLOAT, vk::Format::R32G32B32A32_SFLOAT.as_raw());
    assert_eq!(FORMAT_D32_SFLOAT, vk::Format::D32_SFLOAT.as_raw());
    assert_eq!(FORMAT_D24_UNORM_S8_UINT, vk::Format::D24_UNORM_S8_UINT.as_raw());
    assert_eq!(FORMAT_D32_SFLOAT_S8_UINT, vk::Format::D32_SFLOAT_S8_UINT.as_raw());
    assert_eq!(COLOR_SPACE_SRGB_NONLINEAR, vk::ColorSpaceKHR::SRGB_NONLINEAR.as_raw());
    assert_eq!(PRESENT_MODE_IMMEDIATE, vk::PresentModeKHR::IMMEDIATE.as_raw());
    assert_eq!(PRESENT_MODE_MAILBOX, vk::PresentModeKHR::MAILBOX.as_raw());
    assert_eq!(PRESENT_MODE_FIFO, vk::PresentModeKHR::FIFO.as_raw());
    assert_eq!(PRESENT_MODE_FIFO_RELAXED, vk::PresentModeKHR::FIFO_RELAXED.as_raw());
    assert_eq!(SHARING_MODE_EXCLUSIVE, vk::SharingMode::EXCLUSIVE.as_raw());
    assert_eq!(SHARING_MODE_CONCURRENT, vk::SharingMode::CONCURRENT.as_raw());
    assert_eq!(IMAGE_LAYOUT_UNDEFINED, vk::ImageLayout::UNDEFINED.as_raw());
    assert_eq!(IMAGE_LAYOUT_COLOR_ATTACHMENT_OPTIMAL, vk::ImageLayout::COLOR_ATTACHMENT_OPTIMAL.as_raw());
    assert_eq!(IMAGE_LAYOUT_DEPTH_STENCIL_ATTACHMENT_OPTIMAL, vk::ImageLayout::DEPTH_STENCIL_ATTACHMENT_OPTIMAL.as_raw());
    assert_eq!(IMAGE_LAYOUT_DEPTH_STENCIL_READ_ONLY_OPTIMAL, vk::ImageLayout::DEPTH_STENCIL_READ_ONLY_OPTIMAL.as_raw());
    assert_eq!(IMAGE_LAYOUT_SHADER_READ_ONLY_OPTIMAL, vk::ImageLayout::SHADER_READ_ONLY_OPTIMAL.as_raw());
    assert_eq!(IMAGE_LAYOUT_TRANSFER_DST_OPTIMAL, vk::ImageLayout::TRANSFER_DST_OPTIMAL.as_raw());
    assert_eq!(IMAGE_LAYOUT_DEPTH_READ_ONLY_STENCIL_ATTACHMENT_OPTIMAL, vk::ImageLayout::DEPTH_READ_ONLY_STENCIL_ATTACHMENT_OPTIMAL.as_raw());
    assert_eq!(IMAGE_LAYOUT_DEPTH_ATTACHMENT_STENCIL_READ_ONLY_OPTIMAL, vk::ImageLayout::DEPTH_ATTACHMENT_STENCIL_READ_ONLY_OPTIMAL.as_raw());
    assert_eq!(IMAGE_LAYOUT_DEPTH_ATTACHMENT_OPTIMAL, vk::ImageLayout::DEPTH_ATTACHMENT_OPTIMAL.as_raw());
    assert_eq!(IMAGE_LAYOUT_DEPTH_READ_ONLY_OPTIMAL, vk::ImageLayout::DEPTH_READ_ONLY_OPTIMAL.as_raw());
    assert_eq!(IMAGE_LAYOUT_STENCIL_ATTACHMENT_OPTIMAL, vk::ImageLayout::STENCIL_ATTACHMENT_OPTIMAL.as_raw());
    assert_eq!(IMAGE_LAYOUT_STENCIL_READ_ONLY_OPTIMAL, vk::ImageLayout::STENCIL_READ_ONLY_OPTIMAL.as_raw());
    assert_eq!(IMAGE_LAYOUT_PRESENT_SRC, vk::ImageLayout::PRESENT_SRC_KHR.as_raw());
    assert_eq!(ATTACHMENT_LOAD_OP_LOAD, vk::AttachmentLoadOp::LOAD.as_raw());
    assert_eq!(ATTACHMENT_LOAD_OP_CLEAR, vk::AttachmentLoadOp::CLEAR.as_raw());
    assert_eq!(ATTACHMENT_LOAD_OP_DONT_CARE, vk::AttachmentLoadOp::DONT_CARE.as_raw());
    assert_eq!(ATTACHMENT_STORE_OP_STORE, vk::AttachmentStoreOp::STORE.as_raw());
    assert_eq!(ATTACHMENT_STORE_OP_DONT_CARE, vk::AttachmentStoreOp::DONT_CARE.as_raw());
    assert_eq!(INDEX_TYPE_UINT16, vk::IndexType::UINT16.as_raw());
    assert_eq!(INDEX_TYPE_UINT32, vk::IndexType::UINT32.as_raw());
    assert_eq!(VERTEX_INPUT_RATE_VERTEX, vk::VertexInputRate::VERTEX.as_raw());
    assert_eq!(VERTEX_INPUT_RATE_INSTANCE, vk::VertexInputRate::INSTANCE.as_raw());
    assert_eq!(ACCESS_SHADER_READ, vk::AccessFlags::SHADER_READ.bits());
    assert_eq!(ACCESS_COLOR_ATTACHMENT_READ, vk::AccessFlags::COLOR_ATTACHMENT_READ.bits());
    assert_eq!(ACCESS_COLOR_ATTACHMENT_WRITE, vk::AccessFlags::COLOR_ATTACHMENT_WRITE.bits());
    assert_eq!(ACCESS_DEPTH_STENCIL_ATTACHMENT_READ, vk::AccessFlags::DEPTH_STENCIL_ATTACHMENT_READ.bits());
    assert_eq!(ACCESS_DEPTH_STENCIL_ATTACHMENT_WRITE, vk::AccessFlags::DEPTH_STENCIL_ATTACHMENT_WRITE.bits());
    assert_eq!(ACCESS_TRANSFER_WRITE, vk::AccessFlags::TRANSFER_WRITE.bits());
    assert_eq!(PIPELINE_STAGE_TOP_OF_PIPE, vk::PipelineStageFlags::TOP_OF_PIPE.bits());
    assert_eq!(PIPELINE_STAGE_FRAGMENT_SHADER, vk::PipelineStageFlags::FRAGMENT_SHADER.bits());
    assert_eq!(PIPELINE_STAGE_EARLY_FRAGMENT_TESTS, vk::PipelineStageFlags::EARLY_FRAGMENT_TESTS.bits());
    assert_eq!(PIPELINE_STAGE_LATE_FRAGMENT_TESTS, vk::PipelineStageFlags::LATE_FRAGMENT_TESTS.bits());
    assert_eq!(PIPELINE_STAGE_COLOR_ATTACHMENT_OUTPUT, vk::PipelineStageFlags::COLOR_ATTACHMENT_OUTPUT.bits());
    assert_eq!(PIPELINE_STAGE_TRANSFER, vk::PipelineStageFlags::TRANSFER.bits());
    assert_eq!(IMAGE_ASPECT_COLOR, vk::ImageAspectFlags::COLOR.bits());
    assert_eq!(IMAGE_ASPECT_DEPTH, vk::ImageAspectFlags::DEPTH.bits());
    assert_eq!(IMAGE_ASPECT_STENCIL, vk::ImageAspectFlags::STENCIL.bits());
    assert_eq!(IMAGE_USAGE_TRANSFER_DST, vk::ImageUsageFlags::TRANSFER_DST.bits());
    assert_eq!(IMAGE_USAGE_SAMPLED, vk::ImageUsageFlags::SAMPLED.bits());
    assert_eq!(IMAGE_USAGE_COLOR_ATTACHMENT, vk::ImageUsageFlags::COLOR_ATTACHMENT.bits());
    assert_eq!(IMAGE_USAGE_DEPTH_STENCIL_ATTACHMENT, vk::ImageUsageFlags::DEPTH_STENCIL_ATTACHMENT.bits());
    assert_eq!(BUFFER_USAGE_TRANSFER_SRC, vk::BufferUsageFlags::TRANSFER_SRC.bits());
    assert_eq!(BUFFER_USAGE_TRANSFER_DST, vk::BufferUsageFlags::TRANSFER_DST.bits());
    assert_eq!(BUFFER_USAGE_UNIFORM_BUFFER, vk::BufferUsageFlags::UNIFORM_BUFFER.bits());
    assert_eq!(BUFFER_USAGE_INDEX_BUFFER, vk::BufferUsageFlags::INDEX_BUFFER.bits());
    assert_eq!(BUFFER_USAGE_VERTEX_BUFFER, vk::BufferUsageFlags::VERTEX_BUFFER.bits());
    assert_eq!(MEMORY_PROPERTY_DEVICE_LOCAL, vk::MemoryPropertyFlags::DEVICE_LOCAL.bits());
    assert_eq!(MEMORY_PROPERTY_HOST_VISIBLE, vk::MemoryPropertyFlags::HOST_VISIBLE.bits());
    assert_eq!(MEMORY_PROPERTY_HOST_COHERENT, vk::MemoryPropertyFlags::HOST_COHERENT.bits());
    assert_eq!(QUEUE_GRAPHICS, vk::QueueFlags::GRAPHICS.bits());
    assert_eq!(SUBPASS_EXTERNAL, vk::SUBPASS_EXTERNAL);
    assert_eq!(DEBUG_SEVERITY_VERBOSE, vk::DebugUtilsMessageSeverityFlagsEXT::VERBOSE.bits());
    assert_eq!(DEBUG_SEVERITY_INFO, vk::DebugUtilsMessageSeverityFlagsEXT::INFO.bits());
    assert_eq!(DEBUG_SEVERITY_WARNING, vk::DebugUtilsMessageSeverityFlagsEXT::WARNING.bits());
    assert_eq!(DEBUG_SEVERITY_ERROR, vk::DebugUtilsMessageSeverityFlagsEXT::ERROR.bits());
    assert_eq!(DESCRIPTOR_TYPE_COMBINED_IMAGE_SAMPLER, vk::DescriptorType::COMBINED_IMAGE_SAMPLER.as_raw());
    assert_eq!(DESCRIPTOR_TYPE_UNIFORM_BUFFER, vk::DescriptorType::UNIFORM_BUFFER.as_raw());
    assert_eq!(SHADER_STAGE_ALL_GRAPHICS, vk::ShaderStageFlags::ALL_GRAPHICS.bits());
    assert_eq!(IMAGE_TILING_OPTIMAL, vk::ImageTiling::OPTIMAL.as_raw());
    assert_eq!(IMAGE_TILING_LINEAR, vk::ImageTiling::LINEAR.as_raw());
    assert_eq!(FORMAT_FEATURE_COLOR_ATTACHMENT, vk::FormatFeatureFlags::COLOR_ATTACHMENT.bits());
    assert_eq!(FORMAT_FEATURE_DEPTH_STENCIL_ATTACHMENT, vk::FormatFeatureFlags::DEPTH_STENCIL_ATTACHMENT.bits());
}
