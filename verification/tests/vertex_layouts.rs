use vulkan_rust::vertex::{
    build_vertex_layout, VertexAttribType, VertexAttributeBuilder, VertexInputAttributeDescription,
    VertexInputBindingDescription, VertexType,
};
use vulkan_rust::vulkan::{
    FORMAT_R32_SFLOAT, FORMAT_R32G32_SINT, FORMAT_R32G32_SFLOAT, FORMAT_R32G32B32_SFLOAT, FORMAT_R32G32B32A32_SFLOAT, VERTEX_INPUT_RATE_VERTEX, VERTEX_INPUT_RATE_INSTANCE,
};

fn attr(location: u32, binding: u32, format: i32, offset: u32) -> VertexInputAttributeDescription {
    VertexInputAttributeDescription { location, binding, format, offset }
}

#[test]
fn attribute_type_sizes_and_formats() {
    assert_eq!(VertexAttribType::Vec3.vertex_struct_size(), 12);
    assert_eq!(VertexAttribType::Vec3.vertex_format(), FORMAT_R32G32B32_SFLOAT);
    assert_eq!(VertexAttribType::Mat4.vertex_struct_size(), 64);
    assert_eq!(VertexAttribType::Mat4.vertex_format_repeat(), 4);
    assert_eq!(VertexAttribType::Mat4.vertex_format_offset(), Some(16));
    assert_eq!(VertexAttribType::IVec2.vertex_format(), FORMAT_R32G32_SINT);
    assert_eq!(VertexAttribType::UInt.vertex_format_repeat(), 1);
}

#[test]
fn simple_vertex_layout() {
    let layout = VertexType::Simple.layout();
    assert_eq!(layout.build_attributes(), &[
        attr(0, 0, FORMAT_R32G32B32_SFLOAT, 0),
        attr(1, 0, FORMAT_R32G32B32_SFLOAT, 12),
        attr(2, 0, FORMAT_R32G32B32_SFLOAT, 24),
        attr(3, 0, FORMAT_R32G32_SFLOAT, 36),
    ][..]);
    assert_eq!(layout.build_bindings(), &[VertexInputBindingDescription { binding: 0, stride: 44, input_rate: VERTEX_INPUT_RATE_VERTEX }][..]);
}

#[test]
fn empty_vertex_has_no_binding() {
    let layout = VertexType::Empty.layout();
    assert!(layout.build_attributes().is_empty());
    assert!(layout.build_bindings().is_empty());
}

#[test]
fn matrix_attribute_takes_four_locations() {
    let mut builder = VertexAttributeBuilder::new();
    builder.set_binding(1);
    builder.set_location(3);
    builder.set_instance(true);
    builder.add_attr(VertexAttribType::Mat4);
    builder.add_attr(VertexAttribType::Float);
    builder.finalize_bindings();
    assert_eq!(builder.build_attributes(), &[
        attr(3, 1, FORMAT_R32G32B32A32_SFLOAT, 0),
        attr(4, 1, FORMAT_R32G32B32A32_SFLOAT, 16),
        attr(5, 1, FORMAT_R32G32B32A32_SFLOAT, 32),
        attr(6, 1, FORMAT_R32G32B32A32_SFLOAT, 48),
        attr(7, 1, FORMAT_R32_SFLOAT, 64),
    ][..]);
    assert_eq!(builder.build_bindings(), &[VertexInputBindingDescription { binding: 1, stride: 68, input_rate: VERTEX_INPUT_RATE_INSTANCE }][..]);
    builder.finalize_bindings();
    assert_eq!(builder.build_bindings().len(), 1);
}

#[test]
fn layout_from_types() {
    let layout = build_vertex_layout(0, 0, false, &vec![VertexAttribType::Vec2, VertexAttribType::Vec3]);
    assert_eq!(layout.build_attributes(), &[attr(0, 0, FORMAT_R32G32_SFLOAT, 0), attr(1, 0, FORMAT_R32G32B32_SFLOAT, 8)][..]);
    assert_eq!(layout.build_bindings()[0].stride, 20);
}

#[test]
fn vertex_type_attribute_lists() {
    assert_eq!(VertexType::Simple.attribute_types(), vec![VertexAttribType::Vec3, VertexAttribType::Vec3, VertexAttribType::Vec3, VertexAttribType::Vec2]);
    assert_eq!(VertexType::MotionBlur.attribute_types(), vec![VertexAttribType::Vec2, VertexAttribType::Vec2]);
    assert_eq!(VertexType::StaticScreenSpace.attribute_types(), vec![VertexAttribType::Vec2, VertexAttribType::Vec3]);
    assert_eq!(VertexType::Empty.attribute_types(), Vec::<VertexAttribType>::new());
}
