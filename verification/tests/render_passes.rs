use vulkan_rust::render_pass::{
    base_render_pass_descriptors, is_depth_stencil_image_layout, plan_render_pass,
    postprocessing_render_pass_descriptors, AttachmentDescription, AttachmentDescriptor,
    AttachmentReference, RenderPassError, SubpassAttachmentDescriptor, SubpassDependency,
    SubpassDescriptor,
};
use vulkan_rust::vulkan::{
    FORMAT_B8G8R8A8_SRGB, FORMAT_R16G16_SFLOAT, FORMAT_R16G16B16A16_SFLOAT, FORMAT_D32_SFLOAT, FORMAT_D32_SFLOAT_S8_UINT, IMAGE_LAYOUT_UNDEFINED, IMAGE_LAYOUT_COLOR_ATTACHMENT_OPTIMAL, IMAGE_LAYOUT_DEPTH_STENCIL_ATTACHMENT_OPTIMAL, IMAGE_LAYOUT_DEPTH_STENCIL_READ_ONLY_OPTIMAL, IMAGE_LAYOUT_SHADER_READ_ONLY_OPTIMAL, IMAGE_LAYOUT_STENCIL_READ_ONLY_OPTIMAL, IMAGE_LAYOUT_PRESENT_SRC, ATTACHMENT_LOAD_OP_CLEAR, ATTACHMENT_LOAD_OP_DONT_CARE, ATTACHMENT_STORE_OP_STORE, ATTACHMENT_STORE_OP_DONT_CARE, ACCESS_COLOR_ATTACHMENT_WRITE, ACCESS_DEPTH_STENCIL_ATTACHMENT_WRITE, PIPELINE_STAGE_EARLY_FRAGMENT_TESTS, PIPELINE_STAGE_COLOR_ATTACHMENT_OUTPUT, SUBPASS_EXTERNAL,
};

fn color(format: i32, final_layout: i32) -> AttachmentDescriptor {
    AttachmentDescriptor {
        format,
        load_op: ATTACHMENT_LOAD_OP_CLEAR,
        store_op: ATTACHMENT_STORE_OP_STORE,
        stencil_load_op: None,
        stencil_store_op: Some(ATTACHMENT_STORE_OP_DONT_CARE),
        initial_layout: IMAGE_LAYOUT_UNDEFINED,
        final_layout,
    }
}

#[test]
fn depth_stencil_layouts() {
    assert!(is_depth_stencil_image_layout(IMAGE_LAYOUT_DEPTH_STENCIL_ATTACHMENT_OPTIMAL));
    assert!(is_depth_stencil_image_layout(IMAGE_LAYOUT_STENCIL_READ_ONLY_OPTIMAL));
    assert!(!is_depth_stencil_image_layout(IMAGE_LAYOUT_COLOR_ATTACHMENT_OPTIMAL));
    assert!(!is_depth_stencil_image_layout(IMAGE_LAYOUT_PRESENT_SRC));
}

#[test]
fn plan_with_depth_attachment() {
    let attachments = vec![color(FORMAT_B8G8R8A8_SRGB, IMAGE_LAYOUT_PRESENT_SRC)];
    let depth = AttachmentDescriptor {
        format: FORMAT_D32_SFLOAT,
        load_op: ATTACHMENT_LOAD_OP_CLEAR,
        store_op: ATTACHMENT_STORE_OP_DONT_CARE,
        stencil_load_op: Some(ATTACHMENT_LOAD_OP_DONT_CARE),
        stencil_store_op: None,
        initial_layout: IMAGE_LAYOUT_UNDEFINED,
        final_layout: IMAGE_LAYOUT_DEPTH_STENCIL_ATTACHMENT_OPTIMAL,
    };
    let subpasses = vec![SubpassDescriptor {
        color_attachments: vec![SubpassAttachmentDescriptor { attached: true, ref_layout: IMAGE_LAYOUT_COLOR_ATTACHMENT_OPTIMAL }],
        depth_attachment: SubpassAttachmentDescriptor { attached: true, ref_layout: IMAGE_LAYOUT_DEPTH_STENCIL_ATTACHMENT_OPTIMAL },
    }];
    let extra = SubpassDependency { src_subpass: 0, dst_subpass: 1, src_stage_mask: 1, dst_stage_mask: 2, src_access_mask: 3, dst_access_mask: 4 };
    let plan = plan_render_pass(&attachments, Some(&depth), &subpasses, &vec![extra]).unwrap();
    assert_eq!(plan.attachments, vec![
        AttachmentDescription {
            format: FORMAT_B8G8R8A8_SRGB,
            load_op: ATTACHMENT_LOAD_OP_CLEAR,
            store_op: ATTACHMENT_STORE_OP_STORE,
            stencil_load_op: ATTACHMENT_LOAD_OP_CLEAR,
            stencil_store_op: ATTACHMENT_STORE_OP_DONT_CARE,
            initial_layout: IMAGE_LAYOUT_UNDEFINED,
            final_layout: IMAGE_LAYOUT_PRESENT_SRC,
        },
        AttachmentDescription {
            format: FORMAT_D32_SFLOAT,
            load_op: ATTACHMENT_LOAD_OP_CLEAR,
            store_op: ATTACHMENT_STORE_OP_DONT_CARE,
            stencil_load_op: ATTACHMENT_LOAD_OP_DONT_CARE,
            stencil_store_op: ATTACHMENT_STORE_OP_DONT_CARE,
            initial_layout: IMAGE_LAYOUT_UNDEFINED,
            final_layout: IMAGE_LAYOUT_DEPTH_STENCIL_ATTACHMENT_OPTIMAL,
        },
    ]);
    assert_eq!(plan.subpasses.len(), 1);
    assert_eq!(plan.subpasses[0].color_attachments, vec![AttachmentReference { attachment: 0, layout: IMAGE_LAYOUT_COLOR_ATTACHMENT_OPTIMAL }]);
    assert_eq!(plan.subpasses[0].depth_stencil_attachment, Some(AttachmentReference { attachment: 1, layout: IMAGE_LAYOUT_DEPTH_STENCIL_ATTACHMENT_OPTIMAL }));
    assert_eq!(plan.dependencies, vec![
        SubpassDependency {
            src_subpass: SUBPASS_EXTERNAL,
            dst_subpass: 0,
            src_stage_mask: PIPELINE_STAGE_COLOR_ATTACHMENT_OUTPUT | PIPELINE_STAGE_EARLY_FRAGMENT_TESTS,
            dst_stage_mask: PIPELINE_STAGE_COLOR_ATTACHMENT_OUTPUT | PIPELINE_STAGE_EARLY_FRAGMENT_TESTS,
            src_access_mask: 0,
            dst_access_mask: ACCESS_COLOR_ATTACHMENT_WRITE | ACCESS_DEPTH_STENCIL_ATTACHMENT_WRITE,
        },
        extra,
    ]);
}

#[test]
fn plan_without_depth_skips_unattached_colors() {
    let attachments = vec![color(1, IMAGE_LAYOUT_SHADER_READ_ONLY_OPTIMAL), color(2, IMAGE_LAYOUT_SHADER_READ_ONLY_OPTIMAL)];
    let subpasses = vec![SubpassDescriptor {
        color_attachments: vec![
            SubpassAttachmentDescriptor { attached: false, ref_layout: IMAGE_LAYOUT_UNDEFINED },
            SubpassAttachmentDescriptor { attached: true, ref_layout: IMAGE_LAYOUT_COLOR_ATTACHMENT_OPTIMAL },
        ],
        depth_attachment: SubpassAttachmentDescriptor { attached: false, ref_layout: IMAGE_LAYOUT_UNDEFINED },
    }];
    let plan = plan_render_pass(&attachments, None, &subpasses, &vec![]).unwrap();
    assert_eq!(plan.attachments.len(), 2);
    assert_eq!(plan.subpasses[0].color_attachments, vec![AttachmentReference { attachment: 1, layout: IMAGE_LAYOUT_COLOR_ATTACHMENT_OPTIMAL }]);
    assert_eq!(plan.subpasses[0].depth_stencil_attachment, None);
    assert_eq!(plan.dependencies[0].dst_access_mask, ACCESS_COLOR_ATTACHMENT_WRITE);
    assert_eq!(plan.dependencies[0].src_stage_mask, PIPELINE_STAGE_COLOR_ATTACHMENT_OUTPUT);
}

#[test]
fn depth_layout_among_colors_is_refused() {
    let attachments = vec![color(1, IMAGE_LAYOUT_DEPTH_STENCIL_ATTACHMENT_OPTIMAL)];
    let r = plan_render_pass(&attachments, None, &vec![], &vec![]);
    assert_eq!(r.err(), Some(RenderPassError::DepthAttachmentAmongColorAttachments));
}

#[test]
fn subpass_using_missing_depth_is_refused() {
    let attachments = vec![color(1, IMAGE_LAYOUT_PRESENT_SRC)];
    let subpasses = vec![SubpassDescriptor {
        color_attachments: vec![],
        depth_attachment: SubpassAttachmentDescriptor { attached: true, ref_layout: IMAGE_LAYOUT_DEPTH_STENCIL_ATTACHMENT_OPTIMAL },
    }];
    let r = plan_render_pass(&attachments, None, &subpasses, &vec![]);
    assert_eq!(r.err(), Some(RenderPassError::MissingDepthAttachment));
}

#[test]
fn engine_render_passes_plan() {
    let base = base_render_pass_descriptors(FORMAT_R16G16B16A16_SFLOAT, FORMAT_R16G16_SFLOAT, FORMAT_D32_SFLOAT_S8_UINT);
    let plan = plan_render_pass(&base.color_attachments, base.depth_attachment.as_ref(), &base.subpasses, &base.dependencies).unwrap();
    assert_eq!(plan.attachments.len(), 3);
    assert_eq!(plan.attachments[2].store_op, ATTACHMENT_STORE_OP_DONT_CARE);
    assert_eq!(plan.subpasses[0].color_attachments, vec![AttachmentReference { attachment: 1, layout: IMAGE_LAYOUT_COLOR_ATTACHMENT_OPTIMAL }]);
    assert_eq!(plan.subpasses[1].color_attachments, vec![AttachmentReference { attachment: 0, layout: IMAGE_LAYOUT_COLOR_ATTACHMENT_OPTIMAL }]);
    assert_eq!(plan.subpasses[1].depth_stencil_attachment, Some(AttachmentReference { attachment: 2, layout: IMAGE_LAYOUT_DEPTH_STENCIL_READ_ONLY_OPTIMAL }));
    assert_eq!(plan.dependencies.len(), 2);
    assert_eq!(plan.dependencies[1].src_subpass, 0);
    assert_eq!(plan.dependencies[1].dst_subpass, 1);

    let post = postprocessing_render_pass_descriptors(FORMAT_B8G8R8A8_SRGB);
    let plan = plan_render_pass(&post.color_attachments, post.depth_attachment.as_ref(), &post.subpasses, &post.dependencies).unwrap();
    assert_eq!(plan.attachments.len(), 1);
    assert_eq!(plan.attachments[0].final_layout, IMAGE_LAYOUT_PRESENT_SRC);
    assert_eq!(plan.dependencies.len(), 1);
}
