//! Two-dimensional images: the bookkeeping of an image and its Vulkan objects, the
//! barriers of layout transitions, attachment usage, and the pixels taken from PNG files.
use vstd::prelude::*;
use crate::swapchain::Extent2D;
use crate::vulkan::{
    ACCESS_COLOR_ATTACHMENT_READ, ACCESS_COLOR_ATTACHMENT_WRITE,
    ACCESS_DEPTH_STENCIL_ATTACHMENT_READ, ACCESS_DEPTH_STENCIL_ATTACHMENT_WRITE,
    ACCESS_SHADER_READ, ACCESS_TRANSFER_WRITE, FORMAT_D24_UNORM_S8_UINT, FORMAT_D32_SFLOAT_S8_UINT,
    FORMAT_R8G8B8A8_SRGB, FORMAT_R8G8B8A8_UNORM, IMAGE_ASPECT_COLOR, IMAGE_ASPECT_DEPTH,
    IMAGE_ASPECT_STENCIL, IMAGE_LAYOUT_COLOR_ATTACHMENT_OPTIMAL,
    IMAGE_LAYOUT_DEPTH_STENCIL_ATTACHMENT_OPTIMAL, IMAGE_LAYOUT_SHADER_READ_ONLY_OPTIMAL,
    IMAGE_LAYOUT_TRANSFER_DST_OPTIMAL, IMAGE_LAYOUT_UNDEFINED, IMAGE_USAGE_COLOR_ATTACHMENT,
    IMAGE_USAGE_DEPTH_STENCIL_ATTACHMENT, IMAGE_USAGE_SAMPLED, PIPELINE_STAGE_COLOR_ATTACHMENT_OUTPUT,
    PIPELINE_STAGE_EARLY_FRAGMENT_TESTS, PIPELINE_STAGE_FRAGMENT_SHADER, PIPELINE_STAGE_TOP_OF_PIPE,
    PIPELINE_STAGE_TRANSFER,
};

verus! {

/// What an attachment image is used for.
#[derive(Clone, Copy, Debug, PartialEq, Eq, Structural)]
pub enum AttachmentKind {
    Color,
    Depth,
}

/// Why an image operation was refused.
#[derive(Clone, Copy, Debug, PartialEq, Eq, Structural)]
pub enum ImageError {
    /// The image was already created.
    AlreadyInitialized,
    /// The image wraps an image it does not own, so no new image can be created for it.
    NotOwned,
    /// The image owns its image, so it cannot be set up around an existing one.
    NotBorrowed,
    /// The layout transition has no barrier settings.
    UnsupportedLayoutTransition,
    /// PNG pixels that are neither RGB nor RGBA.
    UnsupportedColorType,
    /// Bytes that do not decode as a PNG image.
    InvalidPng,
    /// A decoded RGB image too large to widen to RGBA, or with fewer bytes than pixels.
    ImageTooLarge,
    /// None of the candidate formats supports the features asked for.
    NoSupportedFormat,
}

/// The access and stage masks and the aspect of an image layout transition barrier.
#[derive(Clone, Copy, Debug, PartialEq, Eq, Structural)]
pub struct LayoutTransition {
    pub aspect_mask: u32,
    pub src_access_mask: u32,
    pub dst_access_mask: u32,
    pub src_stage_mask: u32,
    pub dst_stage_mask: u32,
}

/// The format has a stencil component as well as a depth component.
pub open spec fn has_stencil_component(format: i32) -> bool {
    format == FORMAT_D32_SFLOAT_S8_UINT || format == FORMAT_D24_UNORM_S8_UINT
}

/// The aspect a transition to `new_layout` affects.
pub open spec fn transition_aspect(format: i32, new_layout: i32) -> u32 {
    if new_layout == IMAGE_LAYOUT_DEPTH_STENCIL_ATTACHMENT_OPTIMAL && has_stencil_component(format) {
        IMAGE_ASPECT_DEPTH | IMAGE_ASPECT_STENCIL
    } else {
        IMAGE_ASPECT_COLOR
    }
}

/// The barrier of a supported transition: (source access, destination access, source
/// stage, destination stage).
pub open spec fn transition_masks(old_layout: i32, new_layout: i32) -> Option<(u32, u32, u32, u32)> {
    if old_layout == IMAGE_LAYOUT_UNDEFINED && new_layout == IMAGE_LAYOUT_TRANSFER_DST_OPTIMAL {
        Some((0, ACCESS_TRANSFER_WRITE, PIPELINE_STAGE_TOP_OF_PIPE, PIPELINE_STAGE_TRANSFER))
    } else if old_layout == IMAGE_LAYOUT_TRANSFER_DST_OPTIMAL && new_layout
        == IMAGE_LAYOUT_SHADER_READ_ONLY_OPTIMAL {
        Some(
            (
                ACCESS_TRANSFER_WRITE,
                ACCESS_SHADER_READ,
                PIPELINE_STAGE_TRANSFER,
                PIPELINE_STAGE_FRAGMENT_SHADER,
            ),
        )
    } else if old_layout == IMAGE_LAYOUT_UNDEFINED && new_layout
        == IMAGE_LAYOUT_DEPTH_STENCIL_ATTACHMENT_OPTIMAL {
        Some(
            (
                0,
                ACCESS_DEPTH_STENCIL_ATTACHMENT_READ | ACCESS_DEPTH_STENCIL_ATTACHMENT_WRITE,
                PIPELINE_STAGE_TOP_OF_PIPE,
                PIPELINE_STAGE_EARLY_FRAGMENT_TESTS,
            ),
        )
    } else if old_layout == IMAGE_LAYOUT_UNDEFINED && new_layout
        == IMAGE_LAYOUT_COLOR_ATTACHMENT_OPTIMAL {
        Some(
            (
                0,
                ACCESS_COLOR_ATTACHMENT_READ | ACCESS_COLOR_ATTACHMENT_WRITE,
                PIPELINE_STAGE_TOP_OF_PIPE,
                PIPELINE_STAGE_COLOR_ATTACHMENT_OUTPUT,
            ),
        )
    } else {
        None
    }
}

/// The barrier settings that move an image of `format` from `old_layout` to
/// `new_layout`. Four transitions are supported: undefined to transfer destination,
/// transfer destination to shader read, undefined to depth/stencil attachment, and
/// undefined to color attachment.
pub fn layout_transition(format: i32, old_layout: i32, new_layout: i32) -> (r: Result<
    LayoutTransition,
    ImageError,
>)
    ensures
        match transition_masks(old_layout, new_layout) {
            Some((sa, da, ss, ds)) => r == Ok::<LayoutTransition, ImageError>(
                LayoutTransition {
                    aspect_mask: transition_aspect(format, new_layout),
                    src_access_mask: sa,
                    dst_access_mask: da,
                    src_stage_mask: ss,
                    dst_stage_mask: ds,
                },
            ),
            None => r == Err::<LayoutTransition, ImageError>(ImageError::UnsupportedLayoutTransition),
        },
{
    let aspect_mask = if new_layout == IMAGE_LAYOUT_DEPTH_STENCIL_ATTACHMENT_OPTIMAL {
        if format == FORMAT_D32_SFLOAT_S8_UINT || format == FORMAT_D24_UNORM_S8_UINT {
            IMAGE_ASPECT_DEPTH | IMAGE_ASPECT_STENCIL
        } else {
            IMAGE_ASPECT_COLOR
        }
    } else {
        IMAGE_ASPECT_COLOR
    };
    let (src_access_mask, dst_access_mask, src_stage_mask, dst_stage_mask) = if old_layout
        == IMAGE_LAYOUT_UNDEFINED && new_layout == IMAGE_LAYOUT_TRANSFER_DST_OPTIMAL {
        (0, ACCESS_TRANSFER_WRITE, PIPELINE_STAGE_TOP_OF_PIPE, PIPELINE_STAGE_TRANSFER)
    } else if old_layout == IMAGE_LAYOUT_TRANSFER_DST_OPTIMAL && new_layout
        == IMAGE_LAYOUT_SHADER_READ_ONLY_OPTIMAL {
        (
            ACCESS_TRANSFER_WRITE,
            ACCESS_SHADER_READ,
            PIPELINE_STAGE_TRANSFER,
            PIPELINE_STAGE_FRAGMENT_SHADER,
        )
    } else if old_layout == IMAGE_LAYOUT_UNDEFINED && new_layout
        == IMAGE_LAYOUT_DEPTH_STENCIL_ATTACHMENT_OPTIMAL {
        (
            0,
            ACCESS_DEPTH_STENCIL_ATTACHMENT_READ | ACCESS_DEPTH_STENCIL_ATTACHMENT_WRITE,
            PIPELINE_STAGE_TOP_OF_PIPE,
            PIPELINE_STAGE_EARLY_FRAGMENT_TESTS,
        )
    } else if old_layout == IMAGE_LAYOUT_UNDEFINED && new_layout
        == IMAGE_LAYOUT_COLOR_ATTACHMENT_OPTIMAL {
        (
            0,
            ACCESS_COLOR_ATTACHMENT_READ | ACCESS_COLOR_ATTACHMENT_WRITE,
            PIPELINE_STAGE_TOP_OF_PIPE,
            PIPELINE_STAGE_COLOR_ATTACHMENT_OUTPUT,
        )
    } else {
        return Err(ImageError::UnsupportedLayoutTransition);
    };
    Ok(LayoutTransition {
        aspect_mask,
        src_access_mask,
        dst_access_mask,
        src_stage_mask,
        dst_stage_mask,
    })
}

/// Law: a barrier names the aspects the image has at its new layout. Moving a combined
/// depth/stencil image (`D32_SFLOAT_S8_UINT` or `D24_UNORM_S8_UINT`) to the
/// depth/stencil attachment layout covers both its depth and its stencil aspect; every
/// other transition covers the color aspect. The one supported transition into that
/// layout starts from the undefined layout, waits on nothing, and makes the depth/stencil
/// attachment readable and writable from the early fragment tests on.
pub proof fn lemma_depth_stencil_transition(format: i32, old_layout: i32, new_layout: i32)
    ensures
        new_layout == IMAGE_LAYOUT_DEPTH_STENCIL_ATTACHMENT_OPTIMAL && (format
            == FORMAT_D32_SFLOAT_S8_UINT || format == FORMAT_D24_UNORM_S8_UINT) ==> transition_aspect(
            format,
            new_layout,
        ) == IMAGE_ASPECT_DEPTH | IMAGE_ASPECT_STENCIL,
        !(new_layout == IMAGE_LAYOUT_DEPTH_STENCIL_ATTACHMENT_OPTIMAL && (format
            == FORMAT_D32_SFLOAT_S8_UINT || format == FORMAT_D24_UNORM_S8_UINT)) ==> transition_aspect(
            format,
            new_layout,
        ) == IMAGE_ASPECT_COLOR,
        new_layout == IMAGE_LAYOUT_DEPTH_STENCIL_ATTACHMENT_OPTIMAL ==> (transition_masks(
            old_layout,
            new_layout,
        ) is Some <==> old_layout == IMAGE_LAYOUT_UNDEFINED),
        old_layout == IMAGE_LAYOUT_UNDEFINED && new_layout
            == IMAGE_LAYOUT_DEPTH_STENCIL_ATTACHMENT_OPTIMAL ==> transition_masks(old_layout, new_layout)
            == Some(
            (
                0u32,
                ACCESS_DEPTH_STENCIL_ATTACHMENT_READ | ACCESS_DEPTH_STENCIL_ATTACHMENT_WRITE,
                PIPELINE_STAGE_TOP_OF_PIPE,
                PIPELINE_STAGE_EARLY_FRAGMENT_TESTS,
            ),
        ),
{
}

/// The usage flags and view aspect of an attachment image: color or depth/stencil
/// attachment usage, plus sampled usage when shaders read it.
pub fn attachment_usage(kind: AttachmentKind, sampled: bool) -> (r: (u32, u32))
    ensures
        r.0 == (match kind {
            AttachmentKind::Color => IMAGE_USAGE_COLOR_ATTACHMENT,
            AttachmentKind::Depth => IMAGE_USAGE_DEPTH_STENCIL_ATTACHMENT,
        }) | (if sampled {
            IMAGE_USAGE_SAMPLED
        } else {
            0u32
        }),
        r.1 == match kind {
            AttachmentKind::Color => IMAGE_ASPECT_COLOR,
            AttachmentKind::Depth => IMAGE_ASPECT_DEPTH | IMAGE_ASPECT_STENCIL,
        },
{
    let (mut usage_flags, aspect_flags) = match kind {
        AttachmentKind::Color => (IMAGE_USAGE_COLOR_ATTACHMENT, IMAGE_ASPECT_COLOR),
        AttachmentKind::Depth => (
            IMAGE_USAGE_DEPTH_STENCIL_ATTACHMENT,
            IMAGE_ASPECT_DEPTH | IMAGE_ASPECT_STENCIL,
        ),
    };
    if sampled {
        usage_flags = usage_flags | IMAGE_USAGE_SAMPLED;
    } else {
        assert(usage_flags | 0u32 == usage_flags) by (bit_vector);
    }
    (usage_flags, aspect_flags)
}

/// The Vulkan objects an image gives up when destroyed, to be destroyed in this order:
/// sampler, view, image, memory.
#[derive(Clone, Copy, Debug, PartialEq, Eq, Structural)]
pub struct ImageRelease {
    pub sampler: Option<u64>,
    pub image_view: Option<u64>,
    pub image: Option<u64>,
    pub image_memory: Option<u64>,
}

/// A two-dimensional image: format and size, the raw handles of its image, memory, view
/// and sampler, whether it was created, and whether it owns its image (swapchain images
/// belong to the swapchain).
#[derive(Clone, Copy, Debug, PartialEq, Eq, Structural)]
pub struct Image2D {
    pub format: Option<i32>,
    pub size: Option<Extent2D>,
    pub image: Option<u64>,
    pub image_memory: Option<u64>,
    pub image_view: Option<u64>,
    pub image_sampler: Option<u64>,
    pub initialized: bool,
    pub owns_image: bool,
}

/// The pixels of an RGB image with an opaque alpha added: for each of the first `count`
/// pixels, its three bytes then 255.
pub open spec fn is_rgba_of(rgba: Seq<u8>, rgb: Seq<u8>, count: int) -> bool {
    &&& rgba.len() == 4 * count
    &&& forall|q: int, c: int|
        0 <= q < count && 0 <= c < 3 ==> #[trigger] rgba[4 * q + c] == #[trigger] rgb[3 * q + c]
    &&& forall|q: int| 0 <= q < count ==> #[trigger] rgba[4 * q + 3] == 255
}

/// The color layout of PNG pixels.
#[derive(Clone, Copy, Debug, PartialEq, Eq, Structural)]
pub enum PngColorType {
    Grayscale,
    Rgb,
    Indexed,
    GrayscaleAlpha,
    Rgba,
}

/// `png::DecodingError`, carried through as an opaque value.
#[verifier::external_type_specification]
#[verifier::external_body]
pub struct ExPngDecodingError(png::DecodingError);

/// A decoded PNG image: its size, its color layout and its pixel bytes, row after row.
#[derive(Debug)]
pub struct DecodedPng {
    pub width: u32,
    pub height: u32,
    pub color_type: PngColorType,
    pub pixels: Vec<u8>,
}

/// What a decoded PNG image holds.
pub struct DecodedPngView {
    pub width: u32,
    pub height: u32,
    pub color_type: PngColorType,
    pub pixels: Seq<u8>,
}

impl View for DecodedPng {
    type V = DecodedPngView;

    open spec fn view(&self) -> DecodedPngView {
        DecodedPngView {
            width: self.width,
            height: self.height,
            color_type: self.color_type,
            pixels: self.pixels@,
        }
    }
}

/// What the `png` crate decodes `bytes` to (text chunks ignored, no transformations), or
/// none when it refuses them.
pub uninterp spec fn png_decoding(bytes: Seq<u8>) -> Option<DecodedPngView>;

/// Decodes PNG file contents with the `png` crate: `Decoder::new`, with text chunks
/// ignored, then `read_info` and `next_frame` into a buffer of `Info::raw_bytes` bytes.
/// The result is a function of the bytes alone, named `png_decoding`; what it is, is not
/// stated here.
#[verifier::external_body]
fn decode_png(bytes: &[u8]) -> (r: Result<DecodedPng, png::DecodingError>)
    ensures
        r is Err <==> png_decoding(bytes@) is None,
        r matches Ok(d) ==> png_decoding(bytes@) == Some(d@),
{
    let mut decoder = png::Decoder::new(bytes);
    decoder.set_ignore_text_chunk(true);
    let mut reader = decoder.read_info()?;
    let mut pixels = vec![0u8; reader.info().raw_bytes()];
    reader.next_frame(&mut pixels)?;
    let (width, height) = reader.info().size();
    let color_type = match reader.info().color_type {
        png::ColorType::Grayscale => PngColorType::Grayscale,
        png::ColorType::Rgb => PngColorType::Rgb,
        png::ColorType::Indexed => PngColorType::Indexed,
        png::ColorType::GrayscaleAlpha => PngColorType::GrayscaleAlpha,
        png::ColorType::Rgba => PngColorType::Rgba,
    };
    Ok(DecodedPng { width, height, color_type, pixels })
}

/// Whether the RGB pixels of a decoded image can be widened to RGBA: the RGBA size fits
/// in a `u32` and there is a byte for each color of each pixel.
pub open spec fn rgb_fits(d: DecodedPngView) -> bool {
    &&& d.width * d.height * 4 <= u32::MAX
    &&& d.pixels.len() >= 3 * (d.width * d.height)
}

/// The format an image loaded from a PNG file gets.
pub open spec fn png_format(is_srgb: bool) -> i32 {
    if is_srgb {
        FORMAT_R8G8B8A8_SRGB
    } else {
        FORMAT_R8G8B8A8_UNORM
    }
}

impl Default for Image2D {
    /// An image that is not created yet and will own its image.
    fn default() -> (r: Self)
        ensures
            r == Image2D::empty(),
    {
        Image2D {
            format: None,
            size: None,
            image: None,
            image_memory: None,
            image_view: None,
            image_sampler: None,
            initialized: false,
            owns_image: true,
        }
    }
}

impl Image2D {
    /// An image that is not created yet and will own its image.
    pub open spec fn empty() -> Image2D {
        Image2D {
            format: None,
            size: None,
            image: None,
            image_memory: None,
            image_view: None,
            image_sampler: None,
            initialized: false,
            owns_image: true,
        }
    }

    /// An image that is not created yet and will own its image.
    pub fn new() -> (r: Self)
        ensures
            r == Image2D::empty(),
    {
        Self::default()
    }

    /// An image around an existing image (a swapchain image) that it does not own.
    pub fn new_with_image(image: u64, format: i32, size: Extent2D) -> (r: Self)
        ensures
            r == (Image2D {
                format: Some(format),
                size: Some(size),
                image: Some(image),
                owns_image: false,
                ..Image2D::empty()
            }),
    {
        Image2D {
            format: Some(format),
            size: Some(size),
            image: Some(image),
            owns_image: false,
            ..Self::default()
        }
    }

    pub fn format(&self) -> (r: Option<i32>)
        ensures
            r == self.format,
    {
        self.format
    }

    pub fn size(&self) -> (r: Option<Extent2D>)
        ensures
            r == self.size,
    {
        self.size
    }

    pub fn raw_image(&self) -> (r: Option<u64>)
        ensures
            r == self.image,
    {
        self.image
    }

    pub fn raw_image_memory(&self) -> (r: Option<u64>)
        ensures
            r == self.image_memory,
    {
        self.image_memory
    }

    pub fn raw_image_view(&self) -> (r: Option<u64>)
        ensures
            r == self.image_view,
    {
        self.image_view
    }

    /// Starts creating an attachment image of the given format and extent: refused if the
    /// image was created already or does not own its image; otherwise records format and
    /// size and hands back the usage flags and view aspect (see [`attachment_usage`]).
    pub fn begin_attachment_buffer(
        &mut self,
        format: i32,
        extent: Extent2D,
        attachment_kind: AttachmentKind,
        sampled: bool,
    ) -> (r: Result<(u32, u32), ImageError>)
        ensures
            old(self).initialized ==> r == Err::<(u32, u32), ImageError>(
                ImageError::AlreadyInitialized,
            ) && *final(self) == *old(self),
            !old(self).initialized && !old(self).owns_image ==> r == Err::<(u32, u32), ImageError>(
                ImageError::NotOwned,
            ) && *final(self) == *old(self),
            !old(self).initialized && old(self).owns_image ==> r is Ok && *final(self) == (Image2D {
                format: Some(format),
                size: Some(extent),
                ..*old(self)
            }),
            r matches Ok(u) ==> u == attachment_usage_spec(attachment_kind, sampled),
    {
        if self.initialized {
            return Err(ImageError::AlreadyInitialized);
        }
        if !self.owns_image {
            return Err(ImageError::NotOwned);
        }
        self.format = Some(format);
        self.size = Some(extent);
        Ok(attachment_usage(attachment_kind, sampled))
    }

    /// Records the image and memory created for this image.
    pub fn set_image(&mut self, image: u64, image_memory: u64)
        ensures
            *final(self) == (Image2D {
                image: Some(image),
                image_memory: Some(image_memory),
                ..*old(self)
            }),
    {
        self.image = Some(image);
        self.image_memory = Some(image_memory);
    }

    /// Records the view created for this image.
    pub fn set_image_view(&mut self, image_view: u64)
        ensures
            *final(self) == (Image2D { image_view: Some(image_view), ..*old(self) }),
    {
        self.image_view = Some(image_view);
    }

    /// Records the sampler created for this image.
    pub fn set_image_sampler(&mut self, image_sampler: u64)
        ensures
            *final(self) == (Image2D { image_sampler: Some(image_sampler), ..*old(self) }),
    {
        self.image_sampler = Some(image_sampler);
    }

    /// Marks the image as created.
    pub fn mark_initialized(&mut self)
        ensures
            *final(self) == (Image2D { initialized: true, ..*old(self) }),
    {
        self.initialized = true;
    }

    /// Checks that a view can be created around the existing image: refused if the image
    /// was created already or owns its image.
    pub fn begin_from_swapchain_image(&self) -> (r: Result<(), ImageError>)
        ensures
            self.initialized ==> r == Err::<(), ImageError>(ImageError::AlreadyInitialized),
            !self.initialized && self.owns_image ==> r == Err::<(), ImageError>(
                ImageError::NotBorrowed,
            ),
            !self.initialized && !self.owns_image ==> r is Ok,
    {
        if self.initialized {
            return Err(ImageError::AlreadyInitialized);
        }
        if self.owns_image {
            return Err(ImageError::NotBorrowed);
        }
        Ok(())
    }

    /// Gives up the image's Vulkan objects. The sampler and view always go; the image and
    /// its memory go, and format and size are forgotten, only when the image owns them.
    /// The image is no longer created afterwards.
    pub fn destroy(&mut self) -> (r: ImageRelease)
        ensures
            r.sampler == old(self).image_sampler,
            r.image_view == old(self).image_view,
            old(self).owns_image ==> r.image == old(self).image && r.image_memory == old(self).image_memory && *final(self) == (Image2D {
                initialized: false,
                owns_image: true,
                ..Image2D::empty()
            }),
            !old(self).owns_image ==> r.image is None && r.image_memory is None && *final(self) == (
            Image2D {
                image_sampler: None,
                image_view: None,
                initialized: false,
                ..*old(self)
            }),
    {
        let sampler = self.image_sampler.take();
        let image_view = self.image_view.take();
        let mut image = None;
        let mut image_memory = None;
        if self.owns_image {
            image = self.image.take();
            image_memory = self.image_memory.take();
            self.format = None;
            self.size = None;
        }
        self.initialized = false;
        ImageRelease { sampler, image_view, image, image_memory }
    }

    /// The layout, view and sampler shaders read the image through.
    pub fn get_descriptor_image_info(&self) -> (r: (i32, u64, u64))
        requires
            self.image_view is Some,
            self.image_sampler is Some,
        ensures
            r == (IMAGE_LAYOUT_SHADER_READ_ONLY_OPTIMAL, self.image_view.unwrap(), self.image_sampler.unwrap()),
    {
        (IMAGE_LAYOUT_SHADER_READ_ONLY_OPTIMAL, self.image_view.unwrap(), self.image_sampler.unwrap())
    }

    /// Copies the first `pixel_count` RGB pixels into RGBA pixels with an opaque alpha;
    /// bytes of `new_pixels` past those pixels are left alone.
    pub fn convert_rgb_to_rgba(&self, pixels: &Vec<u8>, new_pixels: &mut Vec<u8>, pixel_count: usize) -> (r:
        Result<(), ImageError>)
        requires
            pixels@.len() >= 3 * pixel_count,
            old(new_pixels)@.len() >= 4 * pixel_count,
        ensures
            r is Ok,
            final(new_pixels)@.len() == old(new_pixels)@.len(),
            is_rgba_of(final(new_pixels)@.subrange(0, 4 * pixel_count), pixels@, pixel_count as int),
            forall|k: int|
                4 * pixel_count <= k < old(new_pixels)@.len() ==> #[trigger] final(new_pixels)@[k]
                    == old(new_pixels)@[k],
    {
        let ghost before = new_pixels@;
        let out_len = new_pixels.len();
        let in_len = pixels.len();
        let mut q: usize = 0;
        while q < pixel_count
            invariant
                q <= pixel_count,
                pixels@.len() >= 3 * pixel_count,
                in_len == pixels@.len(),
                out_len == before.len(),
                new_pixels@.len() == before.len(),
                before.len() >= 4 * pixel_count,
                forall|p: int, c: int|
                    0 <= p < q && 0 <= c < 3 ==> #[trigger] new_pixels@[4 * p + c] == pixels@[3 * p + c],
                forall|p: int| 0 <= p < q ==> #[trigger] new_pixels@[4 * p + 3] == 255,
                forall|k: int| 4 * q <= k < before.len() ==> #[trigger] new_pixels@[k] == before[k],
            decreases pixel_count - q,
        {
            assert(q * 3 + 2 < 3 * pixel_count && q * 4 + 3 < 4 * pixel_count) by (nonlinear_arith)
                requires
                    q < pixel_count,
            ;
            let from = q * 3;
            let to = q * 4;
            new_pixels.set(to, pixels[from]);
            new_pixels.set(to + 1, pixels[from + 1]);
            new_pixels.set(to + 2, pixels[from + 2]);
            new_pixels.set(to + 3, 255);
            q = q + 1;
        }
        let ghost out = new_pixels@.subrange(0, 4 * pixel_count);
        assert forall|p: int, c: int| 0 <= p < pixel_count && 0 <= c < 3 implies #[trigger] out[4 * p + c] == #[trigger] pixels@[3 * p + c] by {
            assert(out[4 * p + c] == new_pixels@[4 * p + c]);
        }
        assert forall|p: int| 0 <= p < pixel_count implies #[trigger] out[4 * p + 3] == 255 by {
            assert(out[4 * p + 3] == new_pixels@[4 * p + 3]);
        }
        Ok(())
    }

    /// Loads the contents of a PNG file as 8-bit RGBA pixels: refused when the bytes do not
    /// decode, and when an RGB image cannot be widened (see `rgb_fits`); otherwise as
    /// `take_png_pixels` with the decoded size, color layout and pixels.
    pub fn load_png(&mut self, bytes: &[u8], is_srgb: bool) -> (r: Result<Vec<u8>, ImageError>)
        ensures
            match png_decoding(bytes@) {
                None => r == Err::<Vec<u8>, ImageError>(ImageError::InvalidPng) && *final(self)
                    == *old(self),
                Some(d) => if d.color_type == PngColorType::Rgb && !rgb_fits(d) {
                    r == Err::<Vec<u8>, ImageError>(ImageError::ImageTooLarge) && *final(self)
                        == *old(self)
                } else {
                    &&& *final(self) == (Image2D {
                        format: Some(png_format(is_srgb)),
                        size: Some(Extent2D { width: d.width, height: d.height }),
                        ..*old(self)
                    })
                    &&& d.color_type == PngColorType::Rgba ==> (r matches Ok(v) && v@ == d.pixels)
                    &&& d.color_type == PngColorType::Rgb ==> (r matches Ok(v) && is_rgba_of(
                        v@,
                        d.pixels,
                        d.width * d.height,
                    ))
                    &&& d.color_type != PngColorType::Rgba && d.color_type != PngColorType::Rgb
                        ==> r == Err::<Vec<u8>, ImageError>(ImageError::UnsupportedColorType)
                },
            },
    {
        let decoded = match decode_png(bytes) {
            Ok(d) => d,
            Err(_) => return Err(ImageError::InvalidPng),
        };
        let ghost d = decoded@;
        if let PngColorType::Rgb = decoded.color_type {
            let w = decoded.width as u64;
            let h = decoded.height as u64;
            assert(w * h <= 0xFFFF_FFFF * 0xFFFF_FFFFu64) by (nonlinear_arith)
                requires
                    w <= 0xFFFF_FFFF,
                    h <= 0xFFFF_FFFF,
            ;
            let area = w * h;
            if area > 0x3FFF_FFFFu64 || (decoded.pixels.len() as u64) < 3 * area {
                return Err(ImageError::ImageTooLarge);
            }
        }
        self.take_png_pixels(decoded.width, decoded.height, decoded.color_type, decoded.pixels, is_srgb)
    }

    /// Takes decoded PNG pixels as 8-bit RGBA: records the format (sRGB or linear RGBA) and
    /// the size, then keeps RGBA pixels as they are, widens RGB pixels with an opaque
    /// alpha, and refuses any other color type.
    pub fn take_png_pixels(
        &mut self,
        width: u32,
        height: u32,
        color_type: PngColorType,
        pixels: Vec<u8>,
        is_srgb: bool,
    ) -> (r: Result<Vec<u8>, ImageError>)
        requires
            color_type == PngColorType::Rgb ==> width * height * 4 <= u32::MAX && pixels@.len()
                >= 3 * (width * height),
        ensures
            *final(self) == (Image2D {
                format: Some(
                    if is_srgb {
                        FORMAT_R8G8B8A8_SRGB
                    } else {
                        FORMAT_R8G8B8A8_UNORM
                    },
                ),
                size: Some(Extent2D { width, height }),
                ..*old(self)
            }),
            color_type == PngColorType::Rgba ==> r == Ok::<Vec<u8>, ImageError>(pixels),
            color_type == PngColorType::Rgb ==> (r matches Ok(rgba) && is_rgba_of(
                rgba@,
                pixels@,
                width * height,
            )),
            color_type != PngColorType::Rgba && color_type != PngColorType::Rgb ==> r == Err::<
                Vec<u8>,
                ImageError,
            >(ImageError::UnsupportedColorType),
    {
        let format = if is_srgb {
            FORMAT_R8G8B8A8_SRGB
        } else {
            FORMAT_R8G8B8A8_UNORM
        };
        self.format = Some(format);
        self.size = Some(Extent2D { width, height });
        match color_type {
            PngColorType::Rgba => Ok(pixels),
            PngColorType::Rgb => {
                assert(width * height <= u32::MAX) by (nonlinear_arith)
                    requires
                        width * height * 4 <= u32::MAX,
                ;
                let expected_pixel_count = width * height;
                let mut new_pixels: Vec<u8> = vec![0; (expected_pixel_count * 4) as usize];
                let _ = self.convert_rgb_to_rgba(&pixels, &mut new_pixels, expected_pixel_count as usize);
                assert(new_pixels@.subrange(0, 4 * expected_pixel_count) =~= new_pixels@);
                Ok(new_pixels)
            },
            _ => Err(ImageError::UnsupportedColorType),
        }
    }
}

/// See [`attachment_usage`].
pub open spec fn attachment_usage_spec(kind: AttachmentKind, sampled: bool) -> (u32, u32) {
    (
        (match kind {
            AttachmentKind::Color => IMAGE_USAGE_COLOR_ATTACHMENT,
            AttachmentKind::Depth => IMAGE_USAGE_DEPTH_STENCIL_ATTACHMENT,
        }) | (if sampled {
            IMAGE_USAGE_SAMPLED
        } else {
            0u32
        }),
        match kind {
            AttachmentKind::Color => IMAGE_ASPECT_COLOR,
            AttachmentKind::Depth => IMAGE_ASPECT_DEPTH | IMAGE_ASPECT_STENCIL,
        },
    )
}

} // verus!
