//! Choices made when creating a swapchain: surface format, presentation mode, image
//! extent, image count and how the images are shared between queue families.
use vstd::prelude::*;
use crate::vulkan::{
    COLOR_SPACE_SRGB_NONLINEAR, FORMAT_B8G8R8A8_SRGB, IMAGE_USAGE_COLOR_ATTACHMENT,
    PRESENT_MODE_FIFO, PRESENT_MODE_MAILBOX, SHARING_MODE_CONCURRENT, SHARING_MODE_EXCLUSIVE,
};

verus! {

/// A pixel format together with its color space.
#[derive(Clone, Copy, Debug, PartialEq, Eq, Structural)]
pub struct SurfaceFormat {
    pub format: i32,
    pub color_space: i32,
}

/// A width and a height, in pixels.
#[derive(Clone, Copy, Debug, PartialEq, Eq, Structural)]
pub struct Extent2D {
    pub width: u32,
    pub height: u32,
}

/// What a surface allows for the images of a swapchain.
#[derive(Clone, Copy, Debug, PartialEq, Eq, Structural)]
pub struct SurfaceCapabilities {
    pub min_image_count: u32,
    /// Zero when there is no maximum.
    pub max_image_count: u32,
    /// A width of `u32::MAX` when the surface takes its size from the swapchain.
    pub current_extent: Extent2D,
    pub min_image_extent: Extent2D,
    pub max_image_extent: Extent2D,
    pub current_transform: u32,
}

/// The swapchain support of a physical device for a surface.
#[derive(Debug)]
pub struct SwapchainSupport {
    capabilities: SurfaceCapabilities,
    formats: Vec<SurfaceFormat>,
    present_modes: Vec<i32>,
}

/// Why a graphics card cannot be used.
#[derive(Clone, Copy, Debug, PartialEq, Eq, Structural)]
pub enum GraphicsCardSuitabilityError {
    InsufficientSwapchainFormats,
    InsufficientPresentModes,
    NoGraphicsQueueFamily,
    NoPresentQueueFamily,
    NoSuitableGraphicsCard,
}

/// What a suitability error says is missing.
pub open spec fn suitability_message(e: GraphicsCardSuitabilityError) -> Seq<char> {
    match e {
        GraphicsCardSuitabilityError::InsufficientSwapchainFormats => "Physical device does not support sufficient swapchain formats."@,
        GraphicsCardSuitabilityError::InsufficientPresentModes => "Physical device does not support sufficient swapchain present modes."@,
        GraphicsCardSuitabilityError::NoGraphicsQueueFamily => "No queue family on this physical device supports graphics operations."@,
        GraphicsCardSuitabilityError::NoPresentQueueFamily => "No queue family on this physical device supports KHR present operations."@,
        GraphicsCardSuitabilityError::NoSuitableGraphicsCard => "No suitable graphics card was found"@,
    }
}

impl GraphicsCardSuitabilityError {
    /// What is missing, in words.
    pub fn message(&self) -> (r: String)
        ensures
            r@ == suitability_message(*self),
    {
        match self {
            GraphicsCardSuitabilityError::InsufficientSwapchainFormats => String::from_str(
                "Physical device does not support sufficient swapchain formats.",
            ),
            GraphicsCardSuitabilityError::InsufficientPresentModes => String::from_str(
                "Physical device does not support sufficient swapchain present modes.",
            ),
            GraphicsCardSuitabilityError::NoGraphicsQueueFamily => String::from_str(
                "No queue family on this physical device supports graphics operations.",
            ),
            GraphicsCardSuitabilityError::NoPresentQueueFamily => String::from_str(
                "No queue family on this physical device supports KHR present operations.",
            ),
            GraphicsCardSuitabilityError::NoSuitableGraphicsCard => String::from_str(
                "No suitable graphics card was found",
            ),
        }
    }
}

impl SwapchainSupport {
    pub fn new(
        capabilities: SurfaceCapabilities,
        formats: Vec<SurfaceFormat>,
        present_modes: Vec<i32>,
    ) -> (r: Self)
        ensures
            r.capabilities() == capabilities,
            r.formats() == formats@,
            r.present_modes() == present_modes@,
    {
        SwapchainSupport { capabilities, formats, present_modes }
    }

    pub closed spec fn capabilities(&self) -> SurfaceCapabilities {
        self.capabilities
    }

    pub closed spec fn formats(&self) -> Seq<SurfaceFormat> {
        self.formats@
    }

    pub closed spec fn present_modes(&self) -> Seq<i32> {
        self.present_modes@
    }
}

/// The format the engine prefers: 8-bit BGRA in sRGB, non-linear sRGB color space.
pub open spec fn is_preferred_format(f: SurfaceFormat) -> bool {
    f.format == FORMAT_B8G8R8A8_SRGB && f.color_space == COLOR_SPACE_SRGB_NONLINEAR
}

/// The format chosen from those offered: the first preferred one, else the first one.
pub open spec fn chosen_surface_format(formats: Seq<SurfaceFormat>) -> Option<SurfaceFormat> {
    if exists|i: int| 0 <= i < formats.len() && is_preferred_format(#[trigger] formats[i]) {
        let k = choose|k: int|
            0 <= k < formats.len() && is_preferred_format(#[trigger] formats[k]) && forall|j: int|
                0 <= j < k ==> !is_preferred_format(#[trigger] formats[j]);
        Some(formats[k])
    } else if formats.len() > 0 {
        Some(formats[0])
    } else {
        None
    }
}

/// The presentation mode chosen from those offered: mailbox, else FIFO, else none.
pub open spec fn chosen_present_mode(modes: Seq<i32>) -> Option<i32> {
    if modes.contains(PRESENT_MODE_MAILBOX) {
        Some(PRESENT_MODE_MAILBOX)
    } else if modes.contains(PRESENT_MODE_FIFO) {
        Some(PRESENT_MODE_FIFO)
    } else {
        None
    }
}

/// `x` limited to `[lo, hi]`.
pub open spec fn clamp(x: u32, lo: u32, hi: u32) -> u32 {
    if x < lo {
        lo
    } else if x > hi {
        hi
    } else {
        x
    }
}

/// The image extent: the surface's current extent if it has one, else the window size
/// limited to what the surface allows.
pub open spec fn chosen_extent(c: SurfaceCapabilities, window_size: Extent2D) -> Extent2D {
    if c.current_extent.width != u32::MAX {
        c.current_extent
    } else {
        Extent2D {
            width: clamp(window_size.width, c.min_image_extent.width, c.max_image_extent.width),
            height: clamp(window_size.height, c.min_image_extent.height, c.max_image_extent.height),
        }
    }
}

/// One image more than the minimum, but no more than the maximum if there is one.
pub open spec fn chosen_image_count(c: SurfaceCapabilities) -> u32 {
    if c.max_image_count != 0 && c.min_image_count + 1 > c.max_image_count {
        c.max_image_count
    } else {
        (c.min_image_count + 1) as u32
    }
}

/// The extent can be chosen without limiting a size to an empty range.
pub open spec fn extent_choosable(c: SurfaceCapabilities) -> bool {
    c.current_extent.width == u32::MAX ==> c.min_image_extent.width <= c.max_image_extent.width
        && c.min_image_extent.height <= c.max_image_extent.height
}

/// Chooses the surface format: the first offered format that is 8-bit BGRA sRGB in the
/// non-linear sRGB color space, else the first offered format, else none.
pub fn choose_surface_format(swapchain_support: &SwapchainSupport) -> (r: Option<SurfaceFormat>)
    ensures
        r == chosen_surface_format(swapchain_support.formats()),
{
    let formats = &swapchain_support.formats;
    let mut i: usize = 0;
    while i < formats.len()
        invariant
            i <= formats@.len(),
            formats@ == swapchain_support.formats(),
            forall|j: int| 0 <= j < i ==> !is_preferred_format(#[trigger] formats@[j]),
        decreases formats@.len() - i,
    {
        let f = formats[i];
        if f.format == FORMAT_B8G8R8A8_SRGB && f.color_space == COLOR_SPACE_SRGB_NONLINEAR {
            proof {
                let k = choose|k: int|
                    0 <= k < formats@.len() && is_preferred_format(#[trigger] formats@[k]) && forall|
                        j: int,
                    | 0 <= j < k ==> !is_preferred_format(#[trigger] formats@[j]);
                if k < i {
                } else if k > i {
                    assert(!is_preferred_format(formats@[i as int]));
                }
            }
            return Some(f);
        }
        i = i + 1;
    }
    if formats.len() > 0 {
        Some(formats[0])
    } else {
        None
    }
}

/// Whether `modes` holds `mode`.
fn contains_mode(modes: &Vec<i32>, mode: i32) -> (r: bool)
    ensures
        r == modes@.contains(mode),
{
    let mut i: usize = 0;
    while i < modes.len()
        invariant
            i <= modes@.len(),
            forall|j: int| 0 <= j < i ==> modes@[j] != mode,
        decreases modes@.len() - i,
    {
        if modes[i] == mode {
            return true;
        }
        i = i + 1;
    }
    false
}

/// Chooses the presentation mode: mailbox if offered, else FIFO if offered, else none.
pub fn choose_presentation_mode(swapchain_support: &SwapchainSupport) -> (r: Option<i32>)
    ensures
        r == chosen_present_mode(swapchain_support.present_modes()),
{
    let has_mailbox = contains_mode(&swapchain_support.present_modes, PRESENT_MODE_MAILBOX);
    let has_fifo = contains_mode(&swapchain_support.present_modes, PRESENT_MODE_FIFO);
    if has_mailbox {
        Some(PRESENT_MODE_MAILBOX)
    } else if has_fifo {
        Some(PRESENT_MODE_FIFO)
    } else {
        None
    }
}

/// `x` limited to `[lo, hi]`.
fn clamp_u32(x: u32, lo: u32, hi: u32) -> (r: u32)
    requires
        lo <= hi,
    ensures
        r == clamp(x, lo, hi),
{
    if x < lo {
        lo
    } else if x > hi {
        hi
    } else {
        x
    }
}

/// Chooses the image extent: the surface's current extent when it has one, else the
/// window's size limited to the extents the surface allows.
pub fn choose_swapchain_extent(swapchain_support: &SwapchainSupport, window_size: Extent2D) -> (r:
    Extent2D)
    requires
        extent_choosable(swapchain_support.capabilities()),
    ensures
        r == chosen_extent(swapchain_support.capabilities(), window_size),
{
    let c = swapchain_support.capabilities;
    if c.current_extent.width != u32::MAX {
        c.current_extent
    } else {
        Extent2D {
            width: clamp_u32(window_size.width, c.min_image_extent.width, c.max_image_extent.width),
            height: clamp_u32(
                window_size.height,
                c.min_image_extent.height,
                c.max_image_extent.height,
            ),
        }
    }
}

/// The number of swapchain images: one more than the minimum, capped at the maximum
/// when the surface has one.
pub fn choose_image_count(capabilities: &SurfaceCapabilities) -> (r: u32)
    requires
        capabilities.min_image_count < u32::MAX,
    ensures
        r == chosen_image_count(*capabilities),
{
    let mut image_count = capabilities.min_image_count + 1;
    if capabilities.max_image_count != 0 && image_count > capabilities.max_image_count {
        image_count = capabilities.max_image_count;
    }
    image_count
}

/// How swapchain images are shared between queue families.
#[derive(Debug)]
pub struct ImageSharing {
    pub sharing_mode: i32,
    pub queue_family_indices: Vec<u32>,
}

/// Images are used exclusively by one queue family when graphics and presentation use
/// the same family, and concurrently by both families otherwise.
pub fn choose_image_sharing(graphics_queue_family: u32, present_queue_family: u32) -> (r:
    ImageSharing)
    ensures
        graphics_queue_family == present_queue_family ==> r.sharing_mode == SHARING_MODE_EXCLUSIVE
            && r.queue_family_indices@ == Seq::<u32>::empty(),
        graphics_queue_family != present_queue_family ==> r.sharing_mode == SHARING_MODE_CONCURRENT
            && r.queue_family_indices@ == seq![graphics_queue_family, present_queue_family],
{
    let mut queue_family_indices: Vec<u32> = Vec::new();
    let mut sharing_mode = SHARING_MODE_EXCLUSIVE;
    if graphics_queue_family != present_queue_family {
        queue_family_indices.push(graphics_queue_family);
        queue_family_indices.push(present_queue_family);
        sharing_mode = SHARING_MODE_CONCURRENT;
    }
    assert(graphics_queue_family != present_queue_family ==> queue_family_indices@ =~= seq![
        graphics_queue_family,
        present_queue_family,
    ]);
    ImageSharing { sharing_mode, queue_family_indices }
}

/// Checks that a swapchain can be created: some format is offered, and mailbox or FIFO
/// presentation is. Hands back the format and the mode that would be chosen.
pub fn check_swapchain_support(swapchain_support: &SwapchainSupport) -> (r: Result<
    (SurfaceFormat, i32),
    GraphicsCardSuitabilityError,
>)
    ensures
        match (
            chosen_surface_format(swapchain_support.formats()),
            chosen_present_mode(swapchain_support.present_modes()),
        ) {
            (None, _) => r == Err::<(SurfaceFormat, i32), GraphicsCardSuitabilityError>(
                GraphicsCardSuitabilityError::InsufficientSwapchainFormats,
            ),
            (Some(_), None) => r == Err::<(SurfaceFormat, i32), GraphicsCardSuitabilityError>(
                GraphicsCardSuitabilityError::InsufficientPresentModes,
            ),
            (Some(f), Some(m)) => r == Ok::<(SurfaceFormat, i32), GraphicsCardSuitabilityError>(
                (f, m),
            ),
        },
{
    let format = choose_surface_format(swapchain_support);
    match format {
        None => Err(GraphicsCardSuitabilityError::InsufficientSwapchainFormats),
        Some(f) => match choose_presentation_mode(swapchain_support) {
            None => Err(GraphicsCardSuitabilityError::InsufficientPresentModes),
            Some(m) => Ok((f, m)),
        },
    }
}

/// The settings a swapchain is created with.
#[derive(Debug)]
pub struct SwapchainPlan {
    pub surface_format: SurfaceFormat,
    pub present_mode: i32,
    pub extent: Extent2D,
    pub image_count: u32,
    pub image_array_layers: u32,
    pub image_usage: u32,
    pub sharing: ImageSharing,
    pub pre_transform: u32,
    pub clipped: bool,
}

/// Decides every setting of a new swapchain: the chosen format, presentation mode,
/// extent and image count, one array layer, color attachment usage, sharing between the
/// graphics and present queue families, the surface's current transform, and clipping.
pub fn plan_swapchain(
    swapchain_support: &SwapchainSupport,
    window_size: Extent2D,
    graphics_queue_family: u32,
    present_queue_family: u32,
) -> (r: SwapchainPlan)
    requires
        chosen_surface_format(swapchain_support.formats()) is Some,
        chosen_present_mode(swapchain_support.present_modes()) is Some,
        extent_choosable(swapchain_support.capabilities()),
        swapchain_support.capabilities().min_image_count < u32::MAX,
    ensures
        Some(r.surface_format) == chosen_surface_format(swapchain_support.formats()),
        Some(r.present_mode) == chosen_present_mode(swapchain_support.present_modes()),
        r.extent == chosen_extent(swapchain_support.capabilities(), window_size),
        r.image_count == chosen_image_count(swapchain_support.capabilities()),
        r.image_array_layers == 1,
        r.image_usage == IMAGE_USAGE_COLOR_ATTACHMENT,
        graphics_queue_family == present_queue_family ==> r.sharing.sharing_mode
            == SHARING_MODE_EXCLUSIVE && r.sharing.queue_family_indices@ == Seq::<u32>::empty(),
        graphics_queue_family != present_queue_family ==> r.sharing.sharing_mode
            == SHARING_MODE_CONCURRENT && r.sharing.queue_family_indices@ == seq![
            graphics_queue_family,
            present_queue_family,
        ],
        r.pre_transform == swapchain_support.capabilities().current_transform,
        r.clipped,
{
    let surface_format = choose_surface_format(swapchain_support).unwrap();
    let present_mode = choose_presentation_mode(swapchain_support).unwrap();
    let extent = choose_swapchain_extent(swapchain_support, window_size);
    let image_count = choose_image_count(&swapchain_support.capabilities);
    let sharing = choose_image_sharing(graphics_queue_family, present_queue_family);
    SwapchainPlan {
        surface_format,
        present_mode,
        extent,
        image_count,
        image_array_layers: 1,
        image_usage: IMAGE_USAGE_COLOR_ATTACHMENT,
        sharing,
        pre_transform: swapchain_support.capabilities.current_transform,
        clipped: true,
    }
}

} // verus!
