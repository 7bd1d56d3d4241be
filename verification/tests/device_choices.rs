use vulkan_rust::device::{
    check_layers_and_extensions, check_queue_families, get_memory_type_index, select_graphics_card,
    unique_queue_families, MemoryProperties, MemoryRequirements, MemoryType, MissingSupport,
    NoSuitableMemoryType, QueueFamilyIndices,
};
use vulkan_rust::swapchain::{
    check_swapchain_support, choose_image_count, choose_image_sharing, choose_presentation_mode,
    choose_surface_format, choose_swapchain_extent, plan_swapchain, Extent2D,
    GraphicsCardSuitabilityError, SurfaceCapabilities, SurfaceFormat, SwapchainSupport,
};
use vulkan_rust::vulkan::{
    COLOR_SPACE_SRGB_NONLINEAR, FORMAT_B8G8R8A8_SRGB, FORMAT_R8G8B8A8_SRGB, IMAGE_USAGE_COLOR_ATTACHMENT,
    MEMORY_PROPERTY_DEVICE_LOCAL, MEMORY_PROPERTY_HOST_COHERENT, MEMORY_PROPERTY_HOST_VISIBLE,
    PRESENT_MODE_FIFO, PRESENT_MODE_IMMEDIATE, PRESENT_MODE_MAILBOX, QUEUE_GRAPHICS,
    SHARING_MODE_CONCURRENT, SHARING_MODE_EXCLUSIVE,
};

fn caps(min: u32, max: u32, current: Extent2D) -> SurfaceCapabilities {
    SurfaceCapabilities {
        min_image_count: min,
        max_image_count: max,
        current_extent: current,
        min_image_extent: Extent2D { width: 100, height: 100 },
        max_image_extent: Extent2D { width: 1000, height: 800 },
        current_transform: 1,
    }
}

fn support(formats: Vec<SurfaceFormat>, modes: Vec<i32>) -> SwapchainSupport {
    SwapchainSupport::new(caps(2, 0, Extent2D { width: 640, height: 480 }), formats, modes)
}

#[test]
fn preferred_surface_format_wins() {
    let other = SurfaceFormat { format: FORMAT_R8G8B8A8_SRGB, color_space: COLOR_SPACE_SRGB_NONLINEAR };
    let preferred = SurfaceFormat { format: FORMAT_B8G8R8A8_SRGB, color_space: COLOR_SPACE_SRGB_NONLINEAR };
    let s = support(vec![other, preferred], vec![PRESENT_MODE_FIFO]);
    assert_eq!(choose_surface_format(&s), Some(preferred));
}

#[test]
fn first_surface_format_without_preferred_one() {
    let a = SurfaceFormat { format: FORMAT_R8G8B8A8_SRGB, color_space: COLOR_SPACE_SRGB_NONLINEAR };
    let b = SurfaceFormat { format: FORMAT_B8G8R8A8_SRGB, color_space: 7 };
    let s = support(vec![a, b], vec![]);
    assert_eq!(choose_surface_format(&s), Some(a));
    assert_eq!(choose_surface_format(&support(vec![], vec![])), None);
}

#[test]
fn mailbox_then_fifo_presentation() {
    assert_eq!(choose_presentation_mode(&support(vec![], vec![PRESENT_MODE_FIFO, PRESENT_MODE_MAILBOX])), Some(PRESENT_MODE_MAILBOX));
    assert_eq!(choose_presentation_mode(&support(vec![], vec![PRESENT_MODE_IMMEDIATE, PRESENT_MODE_FIFO])), Some(PRESENT_MODE_FIFO));
    assert_eq!(choose_presentation_mode(&support(vec![], vec![PRESENT_MODE_IMMEDIATE])), None);
}

#[test]
fn extent_follows_current_extent_or_clamps_window() {
    let fixed = SwapchainSupport::new(caps(2, 0, Extent2D { width: 640, height: 480 }), vec![], vec![]);
    assert_eq!(choose_swapchain_extent(&fixed, Extent2D { width: 10, height: 10 }), Extent2D { width: 640, height: 480 });
    let free = SwapchainSupport::new(caps(2, 0, Extent2D { width: u32::MAX, height: u32::MAX }), vec![], vec![]);
    assert_eq!(choose_swapchain_extent(&free, Extent2D { width: 50, height: 5000 }), Extent2D { width: 100, height: 800 });
    assert_eq!(choose_swapchain_extent(&free, Extent2D { width: 500, height: 300 }), Extent2D { width: 500, height: 300 });
}

#[test]
fn image_count_is_one_more_than_minimum_within_maximum() {
    assert_eq!(choose_image_count(&caps(2, 0, Extent2D { width: 1, height: 1 })), 3);
    assert_eq!(choose_image_count(&caps(2, 8, Extent2D { width: 1, height: 1 })), 3);
    assert_eq!(choose_image_count(&caps(3, 3, Extent2D { width: 1, height: 1 })), 3);
}

#[test]
fn image_sharing_depends_on_queue_families() {
    let same = choose_image_sharing(0, 0);
    assert_eq!(same.sharing_mode, SHARING_MODE_EXCLUSIVE);
    assert!(same.queue_family_indices.is_empty());
    let different = choose_image_sharing(0, 2);
    assert_eq!(different.sharing_mode, SHARING_MODE_CONCURRENT);
    assert_eq!(different.queue_family_indices, vec![0, 2]);
}

#[test]
fn swapchain_support_errors() {
    assert_eq!(check_swapchain_support(&support(vec![], vec![PRESENT_MODE_FIFO])), Err(GraphicsCardSuitabilityError::InsufficientSwapchainFormats));
    let f = SurfaceFormat { format: FORMAT_B8G8R8A8_SRGB, color_space: COLOR_SPACE_SRGB_NONLINEAR };
    assert_eq!(check_swapchain_support(&support(vec![f], vec![])), Err(GraphicsCardSuitabilityError::InsufficientPresentModes));
    assert_eq!(check_swapchain_support(&support(vec![f], vec![PRESENT_MODE_FIFO])), Ok((f, PRESENT_MODE_FIFO)));
}

#[test]
fn swapchain_plan_combines_the_choices() {
    let f = SurfaceFormat { format: FORMAT_B8G8R8A8_SRGB, color_space: COLOR_SPACE_SRGB_NONLINEAR };
    let s = support(vec![f], vec![PRESENT_MODE_MAILBOX]);
    let plan = plan_swapchain(&s, Extent2D { width: 1, height: 1 }, 1, 2);
    assert_eq!(plan.surface_format, f);
    assert_eq!(plan.present_mode, PRESENT_MODE_MAILBOX);
    assert_eq!(plan.extent, Extent2D { width: 640, height: 480 });
    assert_eq!(plan.image_count, 3);
    assert_eq!(plan.image_array_layers, 1);
    assert_eq!(plan.image_usage, IMAGE_USAGE_COLOR_ATTACHMENT);
    assert_eq!(plan.sharing.sharing_mode, SHARING_MODE_CONCURRENT);
    assert_eq!(plan.sharing.queue_family_indices, vec![1, 2]);
    assert_eq!(plan.pre_transform, 1);
    assert!(plan.clipped);
}

#[test]
fn suitability_messages() {
    assert_eq!(GraphicsCardSuitabilityError::NoGraphicsQueueFamily.message(), "No queue family on this physical device supports graphics operations.");
    assert_eq!(GraphicsCardSuitabilityError::NoSuitableGraphicsCard.message(), "No suitable graphics card was found");
}

#[test]
fn queue_families_graphics_and_first_answered_present() {
    let flags = vec![0x4, QUEUE_GRAPHICS | 0x2, QUEUE_GRAPHICS];
    let support = vec![None, Some(false), Some(true)];
    let indices = QueueFamilyIndices::get(&flags, Some(&support));
    assert_eq!(indices, QueueFamilyIndices { graphics: Some(1), present: Some(1) });
    let none = QueueFamilyIndices::get(&vec![0x4], None);
    assert_eq!(none, QueueFamilyIndices { graphics: None, present: None });
}

#[test]
fn queue_family_checks() {
    assert_eq!(check_queue_families(&QueueFamilyIndices { graphics: None, present: Some(0) }), Err(GraphicsCardSuitabilityError::NoGraphicsQueueFamily));
    assert_eq!(check_queue_families(&QueueFamilyIndices { graphics: Some(0), present: None }), Err(GraphicsCardSuitabilityError::NoPresentQueueFamily));
    assert_eq!(check_queue_families(&QueueFamilyIndices { graphics: Some(0), present: Some(3) }), Ok((0, 3)));
}

#[test]
fn unique_families() {
    assert_eq!(unique_queue_families(2, 2), vec![2]);
    assert_eq!(unique_queue_families(2, 5), vec![2, 5]);
}

fn names(v: &[&str]) -> Vec<String> {
    v.iter().map(|s| s.to_string()).collect()
}

#[test]
fn first_missing_layer_then_extension() {
    let r = check_layers_and_extensions(&names(&["a", "b"]), &names(&["a"]), &names(&["x"]), &names(&[]));
    match r {
        Err(MissingSupport::Layer(name)) => assert_eq!(name, "b"),
        other => panic!("unexpected {:?}", other),
    }
    let r = check_layers_and_extensions(&names(&["a"]), &names(&["a"]), &names(&["x", "y"]), &names(&["x"]));
    match r {
        Err(MissingSupport::Extension(name)) => assert_eq!(name, "y"),
        other => panic!("unexpected {:?}", other),
    }
    assert!(check_layers_and_extensions(&names(&["a"]), &names(&["b", "a"]), &names(&[]), &names(&[])).is_ok());
}

#[test]
fn first_suitable_graphics_card() {
    assert_eq!(select_graphics_card(&vec![false, true, true]), Ok(1));
    assert_eq!(select_graphics_card(&vec![false]), Err(GraphicsCardSuitabilityError::NoSuitableGraphicsCard));
}

#[test]
fn memory_type_must_be_allowed_and_have_the_properties() {
    let memory = MemoryProperties {
        memory_type_count: 3,
        memory_types: vec![
            MemoryType { property_flags: MEMORY_PROPERTY_DEVICE_LOCAL, heap_index: 0 },
            MemoryType { property_flags: MEMORY_PROPERTY_HOST_VISIBLE | MEMORY_PROPERTY_HOST_COHERENT, heap_index: 1 },
            MemoryType { property_flags: MEMORY_PROPERTY_HOST_VISIBLE | MEMORY_PROPERTY_HOST_COHERENT, heap_index: 1 },
        ],
    };
    let host = MEMORY_PROPERTY_HOST_VISIBLE | MEMORY_PROPERTY_HOST_COHERENT;
    let all = MemoryRequirements { size: 16, alignment: 4, memory_type_bits: 0b111 };
    assert_eq!(get_memory_type_index(&memory, host, all), Ok(1));
    let only_last = MemoryRequirements { size: 16, alignment: 4, memory_type_bits: 0b100 };
    assert_eq!(get_memory_type_index(&memory, host, only_last), Ok(2));
    let only_first = MemoryRequirements { size: 16, alignment: 4, memory_type_bits: 0b001 };
    assert_eq!(get_memory_type_index(&memory, host, only_first), Err(NoSuitableMemoryType));
}
