use vulkan_rust::bootstrap::BootstrapLoaderKind;
use vulkan_rust::buffer::Buffer;
use vulkan_rust::descriptors::{
    base_descriptor_pool_plan, base_descriptor_set_layout_bindings, base_descriptor_writes,
    new_uniform_buffers, postprocessing_descriptor_pool_plan,
    postprocessing_descriptor_set_layout_bindings, postprocessing_descriptor_writes,
    DescriptorBufferInfo, DescriptorImageInfo, DescriptorPoolSize, DescriptorSetLayoutBinding,
};
use vulkan_rust::material::{plan_material, DepthBufferUsageMode, Material, COLOR_COMPONENTS_RED_GREEN};
use vulkan_rust::render::{render_commands, DrawCommand, ModelDetails, ModelDraw, PushConstantsKind};
use vulkan_rust::requirements::{collect_requirements, debug_message_level, DebugLogLevel, RequirementKind};
use vulkan_rust::vertex::VertexType;
use vulkan_rust::vulkan::{
    IMAGE_LAYOUT_SHADER_READ_ONLY_OPTIMAL, INDEX_TYPE_UINT32, BUFFER_USAGE_UNIFORM_BUFFER, DEBUG_SEVERITY_VERBOSE, DEBUG_SEVERITY_INFO, DEBUG_SEVERITY_WARNING, DEBUG_SEVERITY_ERROR, DESCRIPTOR_TYPE_COMBINED_IMAGE_SAMPLER, DESCRIPTOR_TYPE_UNIFORM_BUFFER, SHADER_STAGE_ALL_GRAPHICS,
};

fn strings(v: &[&str]) -> Vec<String> {
    v.iter().map(|s| s.to_string()).collect()
}

#[test]
fn loaders_request_layers_and_extensions() {
    assert_eq!(BootstrapLoaderKind::Validation.requirements(RequirementKind::InstanceLayer), strings(&["VK_LAYER_KHRONOS_validation"]));
    assert_eq!(BootstrapLoaderKind::Validation.requirements(RequirementKind::DeviceExtension), Vec::<String>::new());
    assert_eq!(BootstrapLoaderKind::Swapchain.requirements(RequirementKind::DeviceExtension), strings(&["VK_KHR_swapchain"]));
    let loaders = vec![BootstrapLoaderKind::Swapchain, BootstrapLoaderKind::Validation, BootstrapLoaderKind::Pipeline];
    assert_eq!(
        collect_requirements(strings(&["VK_KHR_surface"]), &loaders, RequirementKind::InstanceExtension),
        strings(&["VK_KHR_surface", "VK_EXT_debug_utils"])
    );
    assert_eq!(collect_requirements(vec![], &loaders, RequirementKind::DeviceLayer), strings(&["VK_LAYER_KHRONOS_validation"]));
    assert_eq!(collect_requirements(vec![], &loaders, RequirementKind::DeviceExtension), strings(&["VK_KHR_swapchain"]));
}

#[test]
fn debug_messages_are_logged_by_severity() {
    assert_eq!(debug_message_level(DEBUG_SEVERITY_ERROR), DebugLogLevel::Error);
    assert_eq!(debug_message_level(DEBUG_SEVERITY_WARNING), DebugLogLevel::Warn);
    assert_eq!(debug_message_level(DEBUG_SEVERITY_INFO), DebugLogLevel::Debug);
    assert_eq!(debug_message_level(DEBUG_SEVERITY_VERBOSE), DebugLogLevel::Trace);
    assert_eq!(debug_message_level(0x200), DebugLogLevel::Warn);
}

#[test]
fn descriptor_layouts_and_pools() {
    assert_eq!(base_descriptor_set_layout_bindings(), vec![
        DescriptorSetLayoutBinding { binding: 0, descriptor_type: DESCRIPTOR_TYPE_UNIFORM_BUFFER, descriptor_count: 1, stage_flags: SHADER_STAGE_ALL_GRAPHICS },
        DescriptorSetLayoutBinding { binding: 1, descriptor_type: DESCRIPTOR_TYPE_COMBINED_IMAGE_SAMPLER, descriptor_count: 3, stage_flags: SHADER_STAGE_ALL_GRAPHICS },
    ]);
    assert_eq!(postprocessing_descriptor_set_layout_bindings()[1].binding, 1);
    let base = base_descriptor_pool_plan(3);
    assert_eq!(base.max_sets, 3);
    assert_eq!(base.pool_sizes, vec![
        DescriptorPoolSize { descriptor_type: DESCRIPTOR_TYPE_UNIFORM_BUFFER, descriptor_count: 3 },
        DescriptorPoolSize { descriptor_type: DESCRIPTOR_TYPE_COMBINED_IMAGE_SAMPLER, descriptor_count: 3 },
    ]);
    let post = postprocessing_descriptor_pool_plan(2);
    assert_eq!(post.pool_sizes.len(), 2);
    assert!(post.pool_sizes.iter().all(|s| s.descriptor_type == DESCRIPTOR_TYPE_COMBINED_IMAGE_SAMPLER && s.descriptor_count == 2));
}

#[test]
fn uniform_buffers_one_per_image() {
    let buffers: Vec<Buffer<[u8; 80]>> = new_uniform_buffers(3);
    assert_eq!(buffers.len(), 3);
    assert!(buffers.iter().all(|b| b.allocated_element_count() == 1 && !b.needs_submit()));
    assert_eq!(buffers[0].buffer_create_info().usage, BUFFER_USAGE_UNIFORM_BUFFER);
}

#[test]
fn descriptor_writes_per_set() {
    let diffuse = DescriptorImageInfo { image_layout: IMAGE_LAYOUT_SHADER_READ_ONLY_OPTIMAL, image_view: 1, sampler: 2 };
    let orm = DescriptorImageInfo { image_layout: IMAGE_LAYOUT_SHADER_READ_ONLY_OPTIMAL, image_view: 3, sampler: 4 };
    let writes = base_descriptor_writes(&vec![50, 51], &vec![60, 61, 62], 80, diffuse, orm);
    assert_eq!(writes.len(), 2);
    assert_eq!(writes[1].0.dst_set, 51);
    assert_eq!(writes[1].0.dst_binding, 0);
    assert_eq!(writes[1].0.buffer_info, vec![DescriptorBufferInfo { buffer: 61, offset: 0, range: 80 }]);
    assert_eq!(writes[1].1.dst_binding, 1);
    assert_eq!(writes[1].1.descriptor_type, DESCRIPTOR_TYPE_COMBINED_IMAGE_SAMPLER);
    assert_eq!(writes[1].1.image_info, vec![diffuse, orm]);
    let post = postprocessing_descriptor_writes(&vec![70], &vec![diffuse, orm], &vec![orm, diffuse]);
    assert_eq!(post.len(), 1);
    assert_eq!(post[0].dst_set, 70);
    assert_eq!(post[0].dst_binding, 0);
    assert_eq!(post[0].image_info, vec![diffuse, orm]);
}

#[test]
fn opaque_material_gets_two_pipelines() {
    let vertex = VertexType::Simple.layout();
    let instance = VertexType::Empty.layout();
    let plan = plan_material(&vertex, &instance, &"simple".to_string(), &"main".to_string(), true);
    assert_eq!(plan.binding_descriptions.len(), 1);
    assert_eq!(plan.attribute_descriptions.len(), 4);
    let dm = plan.depth_and_motion.unwrap();
    assert_eq!((dm.shaders.prefix.as_str(), dm.shaders.name.as_str(), dm.shaders.suffix.as_str(), dm.shaders.entry.as_str()), ("depth_and_motion_", "simple", "", "main"));
    assert_eq!((dm.subpass, dm.color_components, dm.depth_mode), (0, Some(COLOR_COMPONENTS_RED_GREEN), DepthBufferUsageMode::WriteIfLess));
    let br = plan.base_render.unwrap();
    assert_eq!((br.shaders.prefix.as_str(), br.subpass, br.color_components, br.depth_mode), ("", 1, None, DepthBufferUsageMode::WriteIfEqual));

    let transparent = plan_material(&vertex, &instance, &"simple".to_string(), &"main".to_string(), false);
    assert!(transparent.depth_and_motion.is_none() && transparent.base_render.is_none());
}

#[test]
fn instanced_material_uses_instanced_shaders() {
    let vertex = VertexType::Simple.layout();
    let instance = VertexType::MotionBlur.layout();
    let plan = plan_material(&vertex, &instance, &"marble".to_string(), &"main".to_string(), true);
    assert_eq!(plan.binding_descriptions.len(), 2);
    assert_eq!(plan.depth_and_motion.unwrap().shaders.suffix, "_instanced");
}

#[test]
fn material_pipelines_to_destroy() {
    assert_eq!(Material { is_loaded: true, depth_motion: Some(1), base_render: Some(2) }.destroy(), vec![1, 2]);
    assert_eq!(Material { is_loaded: true, depth_motion: None, base_render: Some(2) }.destroy(), vec![2]);
}

#[test]
fn draw_commands_of_a_model() {
    let indexed = ModelDetails { vertex_buffer: 1, vertex_buffer_offset: 0, index_buffer: Some(2), index_buffer_offset: 8, index_type: INDEX_TYPE_UINT32, element_count: 36 };
    let draw = ModelDraw { inst_vertex_buffer: Some(3), inst_vertex_buffer_offset: 16, first_element: 0, indexed_vertex_offset: 0, instance_count: 5, first_instance: 0 };
    let c = render_commands(Some(indexed), draw, true).unwrap();
    assert_eq!(c.vertex_buffers, vec![(1, 0), (3, 16)]);
    assert_eq!(c.index_buffer, Some((2, 8, INDEX_TYPE_UINT32)));
    assert_eq!(c.push_constants, PushConstantsKind::DepthMotion);
    assert_eq!(c.draw, DrawCommand::Indexed { index_count: 36, instance_count: 5, first_index: 0, vertex_offset: 0, first_instance: 0 });

    let plain = ModelDetails { index_buffer: None, ..indexed };
    let single = ModelDraw { inst_vertex_buffer: None, instance_count: 1, first_element: 3, ..draw };
    let c = render_commands(Some(plain), single, false).unwrap();
    assert_eq!(c.vertex_buffers, vec![(1, 0)]);
    assert_eq!(c.index_buffer, None);
    assert_eq!(c.push_constants, PushConstantsKind::BaseRender);
    assert_eq!(c.draw, DrawCommand::Plain { vertex_count: 36, instance_count: 1, first_vertex: 3, first_instance: 0 });
    assert!(render_commands(None, draw, false).is_none());
}
