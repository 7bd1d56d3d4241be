//! The descriptors the shaders read: the layouts of the descriptor sets, the pools they
//! are allocated from, the uniform buffers, and what is written into each set.
use vstd::prelude::*;
use crate::buffer::Buffer;
use crate::model::fresh_buffer;
use crate::vulkan::{
    BUFFER_USAGE_UNIFORM_BUFFER, DESCRIPTOR_TYPE_COMBINED_IMAGE_SAMPLER,
    DESCRIPTOR_TYPE_UNIFORM_BUFFER, SHADER_STAGE_ALL_GRAPHICS,
};

verus! {

/// One binding of a descriptor set layout.
#[derive(Clone, Copy, Debug, PartialEq, Eq, Structural)]
pub struct DescriptorSetLayoutBinding {
    pub binding: u32,
    pub descriptor_type: i32,
    pub descriptor_count: u32,
    pub stage_flags: u32,
}

/// How many descriptors of one type a pool holds.
#[derive(Clone, Copy, Debug, PartialEq, Eq, Structural)]
pub struct DescriptorPoolSize {
    pub descriptor_type: i32,
    pub descriptor_count: u32,
}

/// How a descriptor pool is created: its sizes and the number of sets it holds.
#[derive(Debug)]
pub struct DescriptorPoolPlan {
    pub pool_sizes: Vec<DescriptorPoolSize>,
    pub max_sets: u32,
}

/// The layout, view and sampler one image descriptor refers to.
#[derive(Clone, Copy, Debug, PartialEq, Eq, Structural)]
pub struct DescriptorImageInfo {
    pub image_layout: i32,
    pub image_view: u64,
    pub sampler: u64,
}

/// The buffer range one buffer descriptor refers to.
#[derive(Clone, Copy, Debug, PartialEq, Eq, Structural)]
pub struct DescriptorBufferInfo {
    pub buffer: u64,
    pub offset: u64,
    pub range: u64,
}

/// A write of descriptors into one binding of a set, from its first array element.
#[derive(Debug)]
pub struct DescriptorWrite {
    pub dst_set: u64,
    pub dst_binding: u32,
    pub dst_array_element: u32,
    pub descriptor_type: i32,
    pub buffer_info: Vec<DescriptorBufferInfo>,
    pub image_info: Vec<DescriptorImageInfo>,
}

/// A binding reachable from every graphics stage.
pub open spec fn graphics_binding(binding: u32, descriptor_type: i32, descriptor_count: u32) -> DescriptorSetLayoutBinding {
    DescriptorSetLayoutBinding {
        binding,
        descriptor_type,
        descriptor_count,
        stage_flags: SHADER_STAGE_ALL_GRAPHICS,
    }
}

/// The layout of the base render pass's sets: the uniform buffer at binding 0 and three
/// combined image samplers at binding 1.
pub fn base_descriptor_set_layout_bindings() -> (r: Vec<DescriptorSetLayoutBinding>)
    ensures
        r@ == seq![
            graphics_binding(0, DESCRIPTOR_TYPE_UNIFORM_BUFFER, 1),
            graphics_binding(1, DESCRIPTOR_TYPE_COMBINED_IMAGE_SAMPLER, 3),
        ],
{
    let mut r: Vec<DescriptorSetLayoutBinding> = Vec::new();
    r.push(
        DescriptorSetLayoutBinding {
            binding: 0,
            descriptor_type: DESCRIPTOR_TYPE_UNIFORM_BUFFER,
            descriptor_count: 1,
            stage_flags: SHADER_STAGE_ALL_GRAPHICS,
        },
    );
    r.push(
        DescriptorSetLayoutBinding {
            binding: 1,
            descriptor_type: DESCRIPTOR_TYPE_COMBINED_IMAGE_SAMPLER,
            descriptor_count: 3,
            stage_flags: SHADER_STAGE_ALL_GRAPHICS,
        },
    );
    assert(r@ =~= seq![
        graphics_binding(0, DESCRIPTOR_TYPE_UNIFORM_BUFFER, 1),
        graphics_binding(1, DESCRIPTOR_TYPE_COMBINED_IMAGE_SAMPLER, 3),
    ]);
    r
}

/// The layout of the postprocessing pass's sets: the rendered image's sampler at binding 0
/// and the motion vectors' sampler at binding 1.
pub fn postprocessing_descriptor_set_layout_bindings() -> (r: Vec<DescriptorSetLayoutBinding>)
    ensures
        r@ == seq![
            graphics_binding(0, DESCRIPTOR_TYPE_COMBINED_IMAGE_SAMPLER, 1),
            graphics_binding(1, DESCRIPTOR_TYPE_COMBINED_IMAGE_SAMPLER, 1),
        ],
{
    let mut r: Vec<DescriptorSetLayoutBinding> = Vec::new();
    r.push(
        DescriptorSetLayoutBinding {
            binding: 0,
            descriptor_type: DESCRIPTOR_TYPE_COMBINED_IMAGE_SAMPLER,
            descriptor_count: 1,
            stage_flags: SHADER_STAGE_ALL_GRAPHICS,
        },
    );
    r.push(
        DescriptorSetLayoutBinding {
            binding: 1,
            descriptor_type: DESCRIPTOR_TYPE_COMBINED_IMAGE_SAMPLER,
            descriptor_count: 1,
            stage_flags: SHADER_STAGE_ALL_GRAPHICS,
        },
    );
    assert(r@ =~= seq![
        graphics_binding(0, DESCRIPTOR_TYPE_COMBINED_IMAGE_SAMPLER, 1),
        graphics_binding(1, DESCRIPTOR_TYPE_COMBINED_IMAGE_SAMPLER, 1),
    ]);
    r
}

/// The pool of the base render pass's sets: one set per swapchain image, with as many
/// uniform buffer descriptors and as many combined image sampler descriptors.
pub fn base_descriptor_pool_plan(image_count: u32) -> (r: DescriptorPoolPlan)
    ensures
        r.max_sets == image_count,
        r.pool_sizes@ == seq![
            DescriptorPoolSize { descriptor_type: DESCRIPTOR_TYPE_UNIFORM_BUFFER, descriptor_count: image_count },
            DescriptorPoolSize {
                descriptor_type: DESCRIPTOR_TYPE_COMBINED_IMAGE_SAMPLER,
                descriptor_count: image_count,
            },
        ],
{
    let mut pool_sizes: Vec<DescriptorPoolSize> = Vec::new();
    pool_sizes.push(
        DescriptorPoolSize { descriptor_type: DESCRIPTOR_TYPE_UNIFORM_BUFFER, descriptor_count: image_count },
    );
    pool_sizes.push(
        DescriptorPoolSize {
            descriptor_type: DESCRIPTOR_TYPE_COMBINED_IMAGE_SAMPLER,
            descriptor_count: image_count,
        },
    );
    DescriptorPoolPlan { pool_sizes, max_sets: image_count }
}

/// The pool of the postprocessing pass's sets: one set per swapchain image, with two
/// entries of as many combined image sampler descriptors.
pub fn postprocessing_descriptor_pool_plan(image_count: u32) -> (r: DescriptorPoolPlan)
    ensures
        r.max_sets == image_count,
        r.pool_sizes@ == seq![
            DescriptorPoolSize {
                descriptor_type: DESCRIPTOR_TYPE_COMBINED_IMAGE_SAMPLER,
                descriptor_count: image_count,
            },
            DescriptorPoolSize {
                descriptor_type: DESCRIPTOR_TYPE_COMBINED_IMAGE_SAMPLER,
                descriptor_count: image_count,
            },
        ],
{
    let mut pool_sizes: Vec<DescriptorPoolSize> = Vec::new();
    pool_sizes.push(
        DescriptorPoolSize {
            descriptor_type: DESCRIPTOR_TYPE_COMBINED_IMAGE_SAMPLER,
            descriptor_count: image_count,
        },
    );
    pool_sizes.push(
        DescriptorPoolSize {
            descriptor_type: DESCRIPTOR_TYPE_COMBINED_IMAGE_SAMPLER,
            descriptor_count: image_count,
        },
    );
    DescriptorPoolPlan { pool_sizes, max_sets: image_count }
}

/// One uniform buffer per swapchain image, each host-visible and holding one object.
pub fn new_uniform_buffers<T>(image_count: u32) -> (r: Vec<Buffer<T>>)
    ensures
        r@.len() == image_count,
        forall|i: int|
            0 <= i < image_count ==> (#[trigger] r@[i]).state() == fresh_buffer(
                BUFFER_USAGE_UNIFORM_BUFFER,
                1,
                false,
            ),
{
    let mut r: Vec<Buffer<T>> = Vec::new();
    let mut i: u32 = 0;
    while i < image_count
        invariant
            i <= image_count,
            r@.len() == i,
            forall|j: int|
                0 <= j < i ==> (#[trigger] r@[j]).state() == fresh_buffer(
                    BUFFER_USAGE_UNIFORM_BUFFER,
                    1,
                    false,
                ),
        decreases image_count - i,
    {
        r.push(Buffer::new(BUFFER_USAGE_UNIFORM_BUFFER, 1, false));
        i = i + 1;
    }
    r
}

/// The write of one buffer descriptor at binding 0 of `set`.
pub open spec fn ubo_write_of(w: DescriptorWrite, set: u64, buffer: u64, ubo_size: u64) -> bool {
    &&& w.dst_set == set
    &&& w.dst_binding == 0
    &&& w.dst_array_element == 0
    &&& w.descriptor_type == DESCRIPTOR_TYPE_UNIFORM_BUFFER
    &&& w.buffer_info@ == seq![DescriptorBufferInfo { buffer, offset: 0, range: ubo_size }]
    &&& w.image_info@.len() == 0
}

/// The write of image sampler descriptors at `binding` of `set`.
pub open spec fn sampler_write_of(
    w: DescriptorWrite,
    set: u64,
    binding: u32,
    images: Seq<DescriptorImageInfo>,
) -> bool {
    &&& w.dst_set == set
    &&& w.dst_binding == binding
    &&& w.dst_array_element == 0
    &&& w.descriptor_type == DESCRIPTOR_TYPE_COMBINED_IMAGE_SAMPLER
    &&& w.buffer_info@.len() == 0
    &&& w.image_info@ == images
}

/// The writes into each base render pass set, one update per set: its uniform buffer (of
/// `ubo_size` bytes) at binding 0, then the diffuse and occlusion-roughness-metallic
/// images at binding 1.
pub fn base_descriptor_writes(
    sets: &Vec<u64>,
    uniform_buffers: &Vec<u64>,
    ubo_size: u64,
    diffuse: DescriptorImageInfo,
    occlusion_roughness_metallic: DescriptorImageInfo,
) -> (r: Vec<(DescriptorWrite, DescriptorWrite)>)
    requires
        uniform_buffers@.len() >= sets@.len(),
    ensures
        r@.len() == sets@.len(),
        forall|q: int|
            0 <= q < sets@.len() ==> ubo_write_of((#[trigger] r@[q]).0, sets@[q], uniform_buffers@[q], ubo_size)
                && sampler_write_of(r@[q].1, sets@[q], 1, seq![diffuse, occlusion_roughness_metallic]),
{
    let mut r: Vec<(DescriptorWrite, DescriptorWrite)> = Vec::new();
    let mut q: usize = 0;
    while q < sets.len()
        invariant
            q <= sets@.len(),
            uniform_buffers@.len() >= sets@.len(),
            r@.len() == q,
            forall|k: int|
                0 <= k < q ==> ubo_write_of((#[trigger] r@[k]).0, sets@[k], uniform_buffers@[k], ubo_size)
                    && sampler_write_of(r@[k].1, sets@[k], 1, seq![diffuse, occlusion_roughness_metallic]),
        decreases sets@.len() - q,
    {
        let mut buffer_info: Vec<DescriptorBufferInfo> = Vec::new();
        buffer_info.push(DescriptorBufferInfo { buffer: uniform_buffers[q], offset: 0, range: ubo_size });
        let ubo_write = DescriptorWrite {
            dst_set: sets[q],
            dst_binding: 0,
            dst_array_element: 0,
            descriptor_type: DESCRIPTOR_TYPE_UNIFORM_BUFFER,
            buffer_info,
            image_info: Vec::new(),
        };
        let mut image_info: Vec<DescriptorImageInfo> = Vec::new();
        image_info.push(diffuse);
        image_info.push(occlusion_roughness_metallic);
        let sampler_write = DescriptorWrite {
            dst_set: sets[q],
            dst_binding: 1,
            dst_array_element: 0,
            descriptor_type: DESCRIPTOR_TYPE_COMBINED_IMAGE_SAMPLER,
            buffer_info: Vec::new(),
            image_info,
        };
        assert(sampler_write.image_info@ =~= seq![diffuse, occlusion_roughness_metallic]);
        r.push((ubo_write, sampler_write));
        q = q + 1;
    }
    r
}

/// The write into each postprocessing set: the rendered image and the motion vectors of
/// the same swapchain image, at binding 0.
pub fn postprocessing_descriptor_writes(
    sets: &Vec<u64>,
    base_render_images: &Vec<DescriptorImageInfo>,
    motion_vector_images: &Vec<DescriptorImageInfo>,
) -> (r: Vec<DescriptorWrite>)
    requires
        base_render_images@.len() >= sets@.len(),
        motion_vector_images@.len() >= sets@.len(),
    ensures
        r@.len() == sets@.len(),
        forall|q: int|
            0 <= q < sets@.len() ==> sampler_write_of(
                #[trigger] r@[q],
                sets@[q],
                0,
                seq![base_render_images@[q], motion_vector_images@[q]],
            ),
{
    let mut r: Vec<DescriptorWrite> = Vec::new();
    let mut q: usize = 0;
    while q < sets.len()
        invariant
            q <= sets@.len(),
            base_render_images@.len() >= sets@.len(),
            motion_vector_images@.len() >= sets@.len(),
            r@.len() == q,
            forall|k: int|
                0 <= k < q ==> sampler_write_of(
                    #[trigger] r@[k],
                    sets@[k],
                    0,
                    seq![base_render_images@[k], motion_vector_images@[k]],
                ),
        decreases sets@.len() - q,
    {
        let mut image_info: Vec<DescriptorImageInfo> = Vec::new();
        image_info.push(base_render_images[q]);
        image_info.push(motion_vector_images[q]);
        let write = DescriptorWrite {
            dst_set: sets[q],
            dst_binding: 0,
            dst_array_element: 0,
            descriptor_type: DESCRIPTOR_TYPE_COMBINED_IMAGE_SAMPLER,
            buffer_info: Vec::new(),
            image_info,
        };
        assert(write.image_info@ =~= seq![base_render_images@[q as int], motion_vector_images@[q as int]]);
        r.push(write);
        q = q + 1;
    }
    r
}

} // verus!
