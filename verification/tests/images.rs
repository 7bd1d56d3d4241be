use vulkan_rust::formats::{format_candidates, get_supported_format, required_features, FormatProperties, FormatPurpose};
use vulkan_rust::image::{attachment_usage, layout_transition, AttachmentKind, Image2D, ImageError, ImageRelease, LayoutTransition, PngColorType};
use vulkan_rust::swapchain::Extent2D;
use vulkan_rust::vulkan::{
    FORMAT_R8G8B8A8_UNORM, FORMAT_R8G8B8A8_SRGB, FORMAT_B8G8R8A8_SRGB, FORMAT_R16G16_SFLOAT, FORMAT_R16G16B16A16_SFLOAT, FORMAT_D32_SFLOAT, FORMAT_D24_UNORM_S8_UINT, FORMAT_D32_SFLOAT_S8_UINT, IMAGE_LAYOUT_UNDEFINED, IMAGE_LAYOUT_COLOR_ATTACHMENT_OPTIMAL, IMAGE_LAYOUT_DEPTH_STENCIL_ATTACHMENT_OPTIMAL, IMAGE_LAYOUT_SHADER_READ_ONLY_OPTIMAL, IMAGE_LAYOUT_TRANSFER_DST_OPTIMAL, ACCESS_SHADER_READ, ACCESS_COLOR_ATTACHMENT_READ, ACCESS_COLOR_ATTACHMENT_WRITE, ACCESS_DEPTH_STENCIL_ATTACHMENT_READ, ACCESS_DEPTH_STENCIL_ATTACHMENT_WRITE, ACCESS_TRANSFER_WRITE, PIPELINE_STAGE_TOP_OF_PIPE, PIPELINE_STAGE_FRAGMENT_SHADER, PIPELINE_STAGE_EARLY_FRAGMENT_TESTS, PIPELINE_STAGE_COLOR_ATTACHMENT_OUTPUT, PIPELINE_STAGE_TRANSFER, IMAGE_ASPECT_COLOR, IMAGE_ASPECT_DEPTH, IMAGE_ASPECT_STENCIL, IMAGE_USAGE_SAMPLED, IMAGE_USAGE_COLOR_ATTACHMENT, IMAGE_USAGE_DEPTH_STENCIL_ATTACHMENT, IMAGE_TILING_OPTIMAL, IMAGE_TILING_LINEAR, FORMAT_FEATURE_COLOR_ATTACHMENT, FORMAT_FEATURE_DEPTH_STENCIL_ATTACHMENT,
};

fn encode_png(width: u32, height: u32, color: png::ColorType, data: &[u8]) -> Vec<u8> {
    let mut bytes = Vec::new();
    {
        let mut encoder = png::Encoder::new(&mut bytes, width, height);
        encoder.set_color(color);
        encoder.set_depth(png::BitDepth::Eight);
        let mut writer = encoder.write_header().unwrap();
        writer.write_image_data(data).unwrap();
    }
    bytes
}

#[test]
fn supported_layout_transitions() {
    assert_eq!(
        layout_transition(FORMAT_R8G8B8A8_SRGB, IMAGE_LAYOUT_UNDEFINED, IMAGE_LAYOUT_TRANSFER_DST_OPTIMAL),
        Ok(LayoutTransition { aspect_mask: IMAGE_ASPECT_COLOR, src_access_mask: 0, dst_access_mask: ACCESS_TRANSFER_WRITE, src_stage_mask: PIPELINE_STAGE_TOP_OF_PIPE, dst_stage_mask: PIPELINE_STAGE_TRANSFER })
    );
    assert_eq!(
        layout_transition(FORMAT_R8G8B8A8_SRGB, IMAGE_LAYOUT_TRANSFER_DST_OPTIMAL, IMAGE_LAYOUT_SHADER_READ_ONLY_OPTIMAL),
        Ok(LayoutTransition { aspect_mask: IMAGE_ASPECT_COLOR, src_access_mask: ACCESS_TRANSFER_WRITE, dst_access_mask: ACCESS_SHADER_READ, src_stage_mask: PIPELINE_STAGE_TRANSFER, dst_stage_mask: PIPELINE_STAGE_FRAGMENT_SHADER })
    );
    assert_eq!(
        layout_transition(FORMAT_D24_UNORM_S8_UINT, IMAGE_LAYOUT_UNDEFINED, IMAGE_LAYOUT_DEPTH_STENCIL_ATTACHMENT_OPTIMAL).map(|t| t.aspect_mask),
        Ok(IMAGE_ASPECT_DEPTH | IMAGE_ASPECT_STENCIL)
    );
    assert_eq!(
        layout_transition(FORMAT_D32_SFLOAT, IMAGE_LAYOUT_UNDEFINED, IMAGE_LAYOUT_DEPTH_STENCIL_ATTACHMENT_OPTIMAL).map(|t| (t.aspect_mask, t.dst_access_mask, t.dst_stage_mask)),
        Ok((IMAGE_ASPECT_COLOR, ACCESS_DEPTH_STENCIL_ATTACHMENT_READ | ACCESS_DEPTH_STENCIL_ATTACHMENT_WRITE, PIPELINE_STAGE_EARLY_FRAGMENT_TESTS))
    );
    assert_eq!(
        layout_transition(FORMAT_R16G16_SFLOAT, IMAGE_LAYOUT_UNDEFINED, IMAGE_LAYOUT_COLOR_ATTACHMENT_OPTIMAL).map(|t| (t.dst_access_mask, t.dst_stage_mask)),
        Ok((ACCESS_COLOR_ATTACHMENT_READ | ACCESS_COLOR_ATTACHMENT_WRITE, PIPELINE_STAGE_COLOR_ATTACHMENT_OUTPUT))
    );
}

#[test]
fn unsupported_layout_transition() {
    assert_eq!(
        layout_transition(FORMAT_R8G8B8A8_SRGB, IMAGE_LAYOUT_SHADER_READ_ONLY_OPTIMAL, IMAGE_LAYOUT_TRANSFER_DST_OPTIMAL),
        Err(ImageError::UnsupportedLayoutTransition)
    );
}

#[test]
fn attachment_usage_flags() {
    assert_eq!(attachment_usage(AttachmentKind::Color, false), (IMAGE_USAGE_COLOR_ATTACHMENT, IMAGE_ASPECT_COLOR));
    assert_eq!(attachment_usage(AttachmentKind::Color, true), (IMAGE_USAGE_COLOR_ATTACHMENT | IMAGE_USAGE_SAMPLED, IMAGE_ASPECT_COLOR));
    assert_eq!(attachment_usage(AttachmentKind::Depth, true), (IMAGE_USAGE_DEPTH_STENCIL_ATTACHMENT | IMAGE_USAGE_SAMPLED, IMAGE_ASPECT_DEPTH | IMAGE_ASPECT_STENCIL));
}

#[test]
fn attachment_image_lifecycle() {
    let mut image = Image2D::new();
    let extent = Extent2D { width: 4, height: 2 };
    let usage = image.begin_attachment_buffer(FORMAT_D32_SFLOAT, extent, AttachmentKind::Depth, false).unwrap();
    assert_eq!(usage, (IMAGE_USAGE_DEPTH_STENCIL_ATTACHMENT, IMAGE_ASPECT_DEPTH | IMAGE_ASPECT_STENCIL));
    assert_eq!(image.format(), Some(FORMAT_D32_SFLOAT));
    assert_eq!(image.size(), Some(extent));
    image.set_image(10, 11);
    image.set_image_view(12);
    image.mark_initialized();
    assert_eq!(image.begin_attachment_buffer(FORMAT_D32_SFLOAT, extent, AttachmentKind::Depth, false), Err(ImageError::AlreadyInitialized));
    let release = image.destroy();
    assert_eq!(release, ImageRelease { sampler: None, image_view: Some(12), image: Some(10), image_memory: Some(11) });
    assert_eq!(image, Image2D::new());
}

#[test]
fn swapchain_image_is_not_owned() {
    let mut image = Image2D::new_with_image(7, FORMAT_B8G8R8A8_SRGB, Extent2D { width: 1, height: 1 });
    assert_eq!(image.begin_attachment_buffer(FORMAT_B8G8R8A8_SRGB, Extent2D { width: 1, height: 1 }, AttachmentKind::Color, false), Err(ImageError::NotOwned));
    assert_eq!(image.begin_from_swapchain_image(), Ok(()));
    assert_eq!(Image2D::new().begin_from_swapchain_image(), Err(ImageError::NotBorrowed));
    image.set_image_view(8);
    image.mark_initialized();
    let release = image.destroy();
    assert_eq!(release, ImageRelease { sampler: None, image_view: Some(8), image: None, image_memory: None });
    assert_eq!(image.raw_image(), Some(7));
    assert_eq!(image.format(), Some(FORMAT_B8G8R8A8_SRGB));
    assert_eq!(image.raw_image_view(), None);
}

#[test]
fn descriptor_image_info() {
    let mut image = Image2D::new();
    image.set_image_view(3);
    image.set_image_sampler(4);
    assert_eq!(image.get_descriptor_image_info(), (IMAGE_LAYOUT_SHADER_READ_ONLY_OPTIMAL, 3, 4));
}

#[test]
fn rgb_pixels_get_an_opaque_alpha() {
    let image = Image2D::new();
    let mut out = vec![9u8; 10];
    image.convert_rgb_to_rgba(&vec![1, 2, 3, 4, 5, 6], &mut out, 2).unwrap();
    assert_eq!(out, vec![1, 2, 3, 255, 4, 5, 6, 255, 9, 9]);
}

#[test]
fn png_pixels_by_color_type() {
    let mut image = Image2D::new();
    let rgba = image.take_png_pixels(1, 1, PngColorType::Rgba, vec![1, 2, 3, 4], true).unwrap();
    assert_eq!(rgba, vec![1, 2, 3, 4]);
    assert_eq!(image.format(), Some(FORMAT_R8G8B8A8_SRGB));
    let rgb = image.take_png_pixels(2, 1, PngColorType::Rgb, vec![1, 2, 3, 4, 5, 6], false).unwrap();
    assert_eq!(rgb, vec![1, 2, 3, 255, 4, 5, 6, 255]);
    assert_eq!(image.format(), Some(FORMAT_R8G8B8A8_UNORM));
    assert_eq!(image.size(), Some(Extent2D { width: 2, height: 1 }));
    assert_eq!(image.take_png_pixels(1, 1, PngColorType::Grayscale, vec![1], false), Err(ImageError::UnsupportedColorType));
}

#[test]
fn png_file_contents_are_decoded() {
    let bytes = encode_png(2, 1, png::ColorType::Rgb, &[10, 20, 30, 40, 50, 60]);
    let mut image = Image2D::new();
    let pixels = image.load_png(&bytes, true).unwrap();
    assert_eq!(pixels, vec![10, 20, 30, 255, 40, 50, 60, 255]);
    assert_eq!(image.size(), Some(Extent2D { width: 2, height: 1 }));
    assert_eq!(image.format(), Some(FORMAT_R8G8B8A8_SRGB));

    // RGBA pixels are kept as decoded, in a buffer of `Info::raw_bytes` bytes: one byte
    // more per row than the pixels take.
    let bytes = encode_png(1, 1, png::ColorType::Rgba, &[1, 2, 3, 4]);
    assert_eq!(Image2D::new().load_png(&bytes, false), Ok(vec![1, 2, 3, 4, 0]));

    let bytes = encode_png(2, 1, png::ColorType::Grayscale, &[1, 2]);
    assert_eq!(Image2D::new().load_png(&bytes, false), Err(ImageError::UnsupportedColorType));
}

#[test]
fn bytes_that_are_not_png_are_refused() {
    let mut image = Image2D::new();
    assert_eq!(image.load_png(&[1, 2, 3, 4], false), Err(ImageError::InvalidPng));
    assert_eq!(image, Image2D::new());
}

#[test]
fn format_candidates_and_features() {
    assert_eq!(format_candidates(FormatPurpose::DepthStencil), vec![FORMAT_D32_SFLOAT_S8_UINT, FORMAT_D24_UNORM_S8_UINT, FORMAT_D32_SFLOAT]);
    assert_eq!(format_candidates(FormatPurpose::RenderImage), vec![FORMAT_R16G16B16A16_SFLOAT]);
    assert_eq!(format_candidates(FormatPurpose::MotionVector), vec![FORMAT_R16G16_SFLOAT, FORMAT_R16G16B16A16_SFLOAT]);
    assert_eq!(required_features(FormatPurpose::DepthStencil), FORMAT_FEATURE_DEPTH_STENCIL_ATTACHMENT);
    assert_eq!(required_features(FormatPurpose::MotionVector), FORMAT_FEATURE_COLOR_ATTACHMENT);
}

#[test]
fn first_supported_format_is_chosen() {
    let candidates = format_candidates(FormatPurpose::DepthStencil);
    let none = FormatProperties { linear_tiling_features: 0, optimal_tiling_features: 0 };
    let depth = FormatProperties { linear_tiling_features: 0, optimal_tiling_features: FORMAT_FEATURE_DEPTH_STENCIL_ATTACHMENT | 0x1 };
    let props = vec![none, depth, depth];
    assert_eq!(get_supported_format(&candidates, &props, IMAGE_TILING_OPTIMAL, FORMAT_FEATURE_DEPTH_STENCIL_ATTACHMENT), Ok(FORMAT_D24_UNORM_S8_UINT));
    assert_eq!(get_supported_format(&candidates, &props, IMAGE_TILING_LINEAR, FORMAT_FEATURE_DEPTH_STENCIL_ATTACHMENT), Err(ImageError::NoSupportedFormat));
    assert_eq!(get_supported_format(&candidates, &props, 5, 0), Err(ImageError::NoSupportedFormat));
}
