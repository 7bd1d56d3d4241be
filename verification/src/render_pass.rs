//! Planning of render passes: attachment descriptions, subpass attachment references and
//! subpass dependencies, checked for consistency before the render pass is created.
use vstd::prelude::*;
use crate::vulkan::{
    ACCESS_COLOR_ATTACHMENT_WRITE,
    ACCESS_DEPTH_STENCIL_ATTACHMENT_READ,
    ACCESS_DEPTH_STENCIL_ATTACHMENT_WRITE,
    ATTACHMENT_LOAD_OP_LOAD,
    ATTACHMENT_STORE_OP_DONT_CARE,
    ATTACHMENT_STORE_OP_STORE,
    FORMAT_UNDEFINED,
    IMAGE_LAYOUT_COLOR_ATTACHMENT_OPTIMAL,
    IMAGE_LAYOUT_DEPTH_ATTACHMENT_OPTIMAL,
    IMAGE_LAYOUT_DEPTH_ATTACHMENT_STENCIL_READ_ONLY_OPTIMAL,
    IMAGE_LAYOUT_DEPTH_READ_ONLY_OPTIMAL,
    IMAGE_LAYOUT_DEPTH_READ_ONLY_STENCIL_ATTACHMENT_OPTIMAL,
    IMAGE_LAYOUT_DEPTH_STENCIL_ATTACHMENT_OPTIMAL,
    IMAGE_LAYOUT_DEPTH_STENCIL_READ_ONLY_OPTIMAL,
    IMAGE_LAYOUT_PRESENT_SRC,
    IMAGE_LAYOUT_SHADER_READ_ONLY_OPTIMAL,
    IMAGE_LAYOUT_STENCIL_ATTACHMENT_OPTIMAL,
    IMAGE_LAYOUT_STENCIL_READ_ONLY_OPTIMAL,
    IMAGE_LAYOUT_UNDEFINED,
    PIPELINE_STAGE_COLOR_ATTACHMENT_OUTPUT,
    PIPELINE_STAGE_EARLY_FRAGMENT_TESTS,
    PIPELINE_STAGE_LATE_FRAGMENT_TESTS,
    SUBPASS_EXTERNAL,
};

verus! {

/// An attachment of a render pass as the engine describes it. A missing stencil
/// operation means "the same as the color/depth operation".
#[derive(Clone, Copy, Debug, PartialEq, Eq, Structural)]
pub struct AttachmentDescriptor {
    pub format: i32,
    pub load_op: i32,
    pub store_op: i32,
    pub stencil_load_op: Option<i32>,
    pub stencil_store_op: Option<i32>,
    pub initial_layout: i32,
    pub final_layout: i32,
}

/// Whether a subpass uses an attachment, and in which layout.
#[derive(Clone, Copy, Debug, PartialEq, Eq, Structural)]
pub struct SubpassAttachmentDescriptor {
    pub attached: bool,
    pub ref_layout: i32,
}

/// The attachments one subpass uses: color attachments by position, and the depth
/// attachment.
#[derive(Debug)]
pub struct SubpassDescriptor {
    pub color_attachments: Vec<SubpassAttachmentDescriptor>,
    pub depth_attachment: SubpassAttachmentDescriptor,
}

/// A render pass attachment as Vulkan takes it (one sample per pixel).
#[derive(Clone, Copy, Debug, PartialEq, Eq, Structural)]
pub struct AttachmentDescription {
    pub format: i32,
    pub load_op: i32,
    pub store_op: i32,
    pub stencil_load_op: i32,
    pub stencil_store_op: i32,
    pub initial_layout: i32,
    pub final_layout: i32,
}

/// A reference from a subpass to an attachment.
#[derive(Clone, Copy, Debug, PartialEq, Eq, Structural)]
pub struct AttachmentReference {
    pub attachment: u32,
    pub layout: i32,
}

/// A graphics subpass: its color attachment references and its depth attachment.
#[derive(Debug)]
pub struct SubpassDescription {
    pub color_attachments: Vec<AttachmentReference>,
    pub depth_stencil_attachment: Option<AttachmentReference>,
}

/// An execution and memory dependency between two subpasses.
#[derive(Clone, Copy, Debug, PartialEq, Eq, Structural)]
pub struct SubpassDependency {
    pub src_subpass: u32,
    pub dst_subpass: u32,
    pub src_stage_mask: u32,
    pub dst_stage_mask: u32,
    pub src_access_mask: u32,
    pub dst_access_mask: u32,
}

/// Everything needed to create a render pass.
#[derive(Debug)]
pub struct RenderPassPlan {
    pub attachments: Vec<AttachmentDescription>,
    pub subpasses: Vec<SubpassDescription>,
    pub dependencies: Vec<SubpassDependency>,
}

/// Why a render pass could not be planned.
#[derive(Clone, Copy, Debug, PartialEq, Eq, Structural)]
pub enum RenderPassError {
    /// A color attachment ends in a depth/stencil layout; the depth/stencil attachment
    /// must be given separately.
    DepthAttachmentAmongColorAttachments,
    /// A subpass uses the depth attachment but none was given.
    MissingDepthAttachment,
}

/// The layout is one of the depth and/or stencil layouts.
pub open spec fn spec_is_depth_stencil_layout(layout: i32) -> bool {
    layout == IMAGE_LAYOUT_DEPTH_ATTACHMENT_OPTIMAL || layout
        == IMAGE_LAYOUT_DEPTH_ATTACHMENT_STENCIL_READ_ONLY_OPTIMAL || layout
        == IMAGE_LAYOUT_DEPTH_READ_ONLY_OPTIMAL || layout
        == IMAGE_LAYOUT_DEPTH_READ_ONLY_STENCIL_ATTACHMENT_OPTIMAL || layout
        == IMAGE_LAYOUT_DEPTH_STENCIL_ATTACHMENT_OPTIMAL || layout
        == IMAGE_LAYOUT_DEPTH_STENCIL_READ_ONLY_OPTIMAL || layout
        == IMAGE_LAYOUT_STENCIL_ATTACHMENT_OPTIMAL || layout
        == IMAGE_LAYOUT_STENCIL_READ_ONLY_OPTIMAL
}

/// Whether an image layout is a depth and/or stencil layout.
pub fn is_depth_stencil_image_layout(layout: i32) -> (r: bool)
    ensures
        r == spec_is_depth_stencil_layout(layout),
{
    layout == IMAGE_LAYOUT_DEPTH_ATTACHMENT_OPTIMAL || layout
        == IMAGE_LAYOUT_DEPTH_ATTACHMENT_STENCIL_READ_ONLY_OPTIMAL || layout
        == IMAGE_LAYOUT_DEPTH_READ_ONLY_OPTIMAL || layout
        == IMAGE_LAYOUT_DEPTH_READ_ONLY_STENCIL_ATTACHMENT_OPTIMAL || layout
        == IMAGE_LAYOUT_DEPTH_STENCIL_ATTACHMENT_OPTIMAL || layout
        == IMAGE_LAYOUT_DEPTH_STENCIL_READ_ONLY_OPTIMAL || layout
        == IMAGE_LAYOUT_STENCIL_ATTACHMENT_OPTIMAL || layout
        == IMAGE_LAYOUT_STENCIL_READ_ONLY_OPTIMAL
}

/// The Vulkan description of an attachment; missing stencil operations take the
/// color/depth operations.
pub open spec fn description_of(d: AttachmentDescriptor) -> AttachmentDescription {
    AttachmentDescription {
        format: d.format,
        load_op: d.load_op,
        store_op: d.store_op,
        stencil_load_op: match d.stencil_load_op {
            Some(op) => op,
            None => d.load_op,
        },
        stencil_store_op: match d.stencil_store_op {
            Some(op) => op,
            None => d.store_op,
        },
        initial_layout: d.initial_layout,
        final_layout: d.final_layout,
    }
}

/// The references to the attached color attachments among the first `q` positions; the
/// reference points at the position.
pub open spec fn color_refs_upto(s: Seq<SubpassAttachmentDescriptor>, q: int) -> Seq<
    AttachmentReference,
>
    decreases q,
{
    if q <= 0 {
        Seq::empty()
    } else if s[q - 1].attached {
        color_refs_upto(s, q - 1).push(
            AttachmentReference { attachment: (q - 1) as u32, layout: s[q - 1].ref_layout },
        )
    } else {
        color_refs_upto(s, q - 1)
    }
}

/// The references to the attached color attachments of a subpass.
pub open spec fn color_refs(s: Seq<SubpassAttachmentDescriptor>) -> Seq<AttachmentReference> {
    color_refs_upto(s, s.len() as int)
}

/// The dependency from outside the render pass to its first subpass: color output, and
/// early fragment tests with depth writes when there is a depth attachment.
pub open spec fn external_dependency(has_depth: bool) -> SubpassDependency {
    let stages = if has_depth {
        PIPELINE_STAGE_COLOR_ATTACHMENT_OUTPUT | PIPELINE_STAGE_EARLY_FRAGMENT_TESTS
    } else {
        PIPELINE_STAGE_COLOR_ATTACHMENT_OUTPUT
    };
    SubpassDependency {
        src_subpass: SUBPASS_EXTERNAL,
        dst_subpass: 0,
        src_stage_mask: stages,
        dst_stage_mask: stages,
        src_access_mask: 0,
        dst_access_mask: if has_depth {
            ACCESS_COLOR_ATTACHMENT_WRITE | ACCESS_DEPTH_STENCIL_ATTACHMENT_WRITE
        } else {
            ACCESS_COLOR_ATTACHMENT_WRITE
        },
    }
}

/// The planned subpass `s` is the one described by `d`, with the depth attachment at
/// index `depth_index`.
pub open spec fn subpass_matches(s: SubpassDescription, d: SubpassDescriptor, depth_index: u32) -> bool {
    &&& s.color_attachments@ == color_refs(d.color_attachments@)
    &&& s.depth_stencil_attachment == if d.depth_attachment.attached {
        Some(AttachmentReference { attachment: depth_index, layout: d.depth_attachment.ref_layout })
    } else {
        None
    }
}

/// Some color attachment ends in a depth/stencil layout.
pub open spec fn has_misplaced_depth(attach_descs: Seq<AttachmentDescriptor>) -> bool {
    exists|i: int|
        0 <= i < attach_descs.len() && spec_is_depth_stencil_layout(
            #[trigger] attach_descs[i].final_layout,
        )
}

/// Some subpass uses the depth attachment.
pub open spec fn some_subpass_uses_depth(subpass_descs: Seq<SubpassDescriptor>) -> bool {
    exists|i: int| 0 <= i < subpass_descs.len() && #[trigger] subpass_descs[i].depth_attachment.attached
}

/// The color references of a subpass: each attached position, in order.
fn plan_color_refs(s: &Vec<SubpassAttachmentDescriptor>) -> (r: Vec<AttachmentReference>)
    requires
        s@.len() <= u32::MAX + 1,
    ensures
        r@ == color_refs(s@),
{
    let mut refs: Vec<AttachmentReference> = Vec::new();
    let mut q: usize = 0;
    while q < s.len()
        invariant
            q <= s@.len() <= u32::MAX + 1,
            refs@ == color_refs_upto(s@, q as int),
        decreases s@.len() - q,
    {
        let c = s[q];
        if c.attached {
            refs.push(AttachmentReference { attachment: q as u32, layout: c.ref_layout });
        }
        q = q + 1;
    }
    refs
}

/// Each color reference among the first `q` positions points at an attached position
/// before `q`, in the layout given there.
pub proof fn lemma_color_refs_point_to_attached(s: Seq<SubpassAttachmentDescriptor>, q: int)
    requires
        0 <= q <= s.len(),
        q <= u32::MAX + 1,
    ensures
        forall|k: int|
            0 <= k < color_refs_upto(s, q).len() ==> {
                let r = #[trigger] color_refs_upto(s, q)[k];
                &&& r.attachment < q
                &&& s[r.attachment as int].attached
                &&& r.layout == s[r.attachment as int].ref_layout
            },
    decreases q,
{
    if q > 0 {
        lemma_color_refs_point_to_attached(s, q - 1);
        let prev = color_refs_upto(s, q - 1);
        if s[q - 1].attached {
            assert forall|k: int| 0 <= k < color_refs_upto(s, q).len() implies {
                let r = #[trigger] color_refs_upto(s, q)[k];
                &&& r.attachment < q
                &&& s[r.attachment as int].attached
                &&& r.layout == s[r.attachment as int].ref_layout
            } by {
                if k < prev.len() {
                    assert(color_refs_upto(s, q)[k] == prev[k]);
                }
            }
        }
    }
}

/// Every reference of a planned subpass points at an attachment of the plan: its color
/// references at attached color attachments, its depth reference at the depth attachment
/// after them. This needs the subpass to list no more color positions than there are
/// color attachments, which planning does not check.
pub proof fn lemma_planned_references_exist(
    s: SubpassDescription,
    d: SubpassDescriptor,
    color_attachment_count: u32,
)
    requires
        subpass_matches(s, d, color_attachment_count),
        d.color_attachments@.len() <= color_attachment_count,
    ensures
        forall|k: int|
            0 <= k < s.color_attachments@.len() ==> (#[trigger] s.color_attachments@[k]).attachment
                < color_attachment_count && d.color_attachments@[s.color_attachments@[k].attachment as int].attached,
        s.depth_stencil_attachment matches Some(r) ==> r.attachment == color_attachment_count,
{
    lemma_color_refs_point_to_attached(d.color_attachments@, d.color_attachments@.len() as int);
    assert forall|k: int| 0 <= k < s.color_attachments@.len() implies (#[trigger] s.color_attachments@[k]).attachment
        < color_attachment_count && d.color_attachments@[s.color_attachments@[k].attachment as int].attached by {
        assert(s.color_attachments@[k] == color_refs_upto(d.color_attachments@, d.color_attachments@.len() as int)[k]);
    }
}

/// Plans a render pass from attachment and subpass descriptors.
///
/// The color attachments come first, in order, then the depth attachment if one is
/// given. Each subpass references its attached color attachments by position and, if it
/// uses depth, the depth attachment. The dependencies are the one from outside the
/// render pass into the first subpass, followed by the given ones.
pub fn plan_render_pass(
    attach_descs: &Vec<AttachmentDescriptor>,
    depth_attach_desc: Option<&AttachmentDescriptor>,
    subpass_descs: &Vec<SubpassDescriptor>,
    subpass_dependencies: &Vec<SubpassDependency>,
) -> (r: Result<RenderPassPlan, RenderPassError>)
    requires
        attach_descs@.len() <= u32::MAX,
        forall|i: int|
            0 <= i < subpass_descs@.len() ==> #[trigger] subpass_descs@[i].color_attachments@.len()
                <= u32::MAX + 1,
    ensures
        has_misplaced_depth(attach_descs@) <==> r == Err::<RenderPassPlan, RenderPassError>(
            RenderPassError::DepthAttachmentAmongColorAttachments,
        ),
        (!has_misplaced_depth(attach_descs@) && depth_attach_desc is None
            && some_subpass_uses_depth(subpass_descs@)) <==> r == Err::<
            RenderPassPlan,
            RenderPassError,
        >(RenderPassError::MissingDepthAttachment),
        r matches Ok(plan) ==> {
            &&& plan.attachments@ == attach_descs@.map_values(|d: AttachmentDescriptor| description_of(d))
                + match depth_attach_desc {
                Some(d) => seq![description_of(*d)],
                None => Seq::empty(),
            }
            &&& plan.subpasses@.len() == subpass_descs@.len()
            &&& forall|i: int|
                0 <= i < subpass_descs@.len() ==> subpass_matches(
                    #[trigger] plan.subpasses@[i],
                    subpass_descs@[i],
                    attach_descs@.len() as u32,
                )
            &&& plan.dependencies@ == seq![external_dependency(depth_attach_desc is Some)]
                + subpass_dependencies@
        },
{
    let mut attachments: Vec<AttachmentDescription> = Vec::new();
    let mut i: usize = 0;
    while i < attach_descs.len()
        invariant
            i <= attach_descs@.len(),
            attachments@ == attach_descs@.subrange(0, i as int).map_values(
                |d: AttachmentDescriptor| description_of(d),
            ),
            forall|j: int| 0 <= j < i ==> !spec_is_depth_stencil_layout(#[trigger] attach_descs@[j].final_layout),
        decreases attach_descs@.len() - i,
    {
        let d = attach_descs[i];
        let attachment = AttachmentDescription {
            format: d.format,
            load_op: d.load_op,
            store_op: d.store_op,
            stencil_load_op: match d.stencil_load_op {
                Some(op) => op,
                None => d.load_op,
            },
            stencil_store_op: match d.stencil_store_op {
                Some(op) => op,
                None => d.store_op,
            },
            initial_layout: d.initial_layout,
            final_layout: d.final_layout,
        };
        if is_depth_stencil_image_layout(d.final_layout) {
            return Err(RenderPassError::DepthAttachmentAmongColorAttachments);
        }
        attachments.push(attachment);
        proof {
            assert(attach_descs@.subrange(0, i + 1) =~= attach_descs@.subrange(0, i as int).push(d));
            assert(attachments@ =~= attach_descs@.subrange(0, i + 1).map_values(
                |d: AttachmentDescriptor| description_of(d),
            ));
        }
        i = i + 1;
    }
    assert(attach_descs@.subrange(0, attach_descs@.len() as int) =~= attach_descs@);
    assert(!has_misplaced_depth(attach_descs@));
    let color_count = attachments.len();
    let has_depth = depth_attach_desc.is_some();
    let depth_attach_idx: u32 = color_count as u32;
    match depth_attach_desc {
        Some(d) => {
            attachments.push(AttachmentDescription {
                format: d.format,
                load_op: d.load_op,
                store_op: d.store_op,
                stencil_load_op: match d.stencil_load_op {
                    Some(op) => op,
                    None => d.load_op,
                },
                stencil_store_op: match d.stencil_store_op {
                    Some(op) => op,
                    None => d.store_op,
                },
                initial_layout: d.initial_layout,
                final_layout: d.final_layout,
            });
        },
        None => {},
    }
    let mut subpasses: Vec<SubpassDescription> = Vec::new();
    let mut s: usize = 0;
    while s < subpass_descs.len()
        invariant
            s <= subpass_descs@.len(),
            has_depth == depth_attach_desc is Some,
            depth_attach_idx == attach_descs@.len() as u32,
            !has_misplaced_depth(attach_descs@),
            subpasses@.len() == s,
            forall|i: int|
                0 <= i < subpass_descs@.len() ==> #[trigger] subpass_descs@[i].color_attachments@.len()
                    <= u32::MAX + 1,
            forall|j: int|
                0 <= j < s ==> subpass_matches(
                    #[trigger] subpasses@[j],
                    subpass_descs@[j],
                    depth_attach_idx,
                ),
            !has_depth ==> forall|j: int| 0 <= j < s ==> !(#[trigger] subpass_descs@[j].depth_attachment.attached),
        decreases subpass_descs@.len() - s,
    {
        let desc = &subpass_descs[s];
        let color_refs = plan_color_refs(&desc.color_attachments);
        let depth_ref = if desc.depth_attachment.attached {
            if has_depth {
                Some(AttachmentReference { attachment: depth_attach_idx, layout: desc.depth_attachment.ref_layout })
            } else {
                return Err(RenderPassError::MissingDepthAttachment);
            }
        } else {
            None
        };
        subpasses.push(SubpassDescription { color_attachments: color_refs, depth_stencil_attachment: depth_ref });
        s = s + 1;
    }
    let mut dependencies: Vec<SubpassDependency> = Vec::new();
    let stages = if has_depth {
        PIPELINE_STAGE_COLOR_ATTACHMENT_OUTPUT | PIPELINE_STAGE_EARLY_FRAGMENT_TESTS
    } else {
        PIPELINE_STAGE_COLOR_ATTACHMENT_OUTPUT
    };
    let dst_access = if has_depth {
        ACCESS_COLOR_ATTACHMENT_WRITE | ACCESS_DEPTH_STENCIL_ATTACHMENT_WRITE
    } else {
        ACCESS_COLOR_ATTACHMENT_WRITE
    };
    dependencies.push(SubpassDependency {
        src_subpass: SUBPASS_EXTERNAL,
        dst_subpass: 0,
        src_stage_mask: stages,
        dst_stage_mask: stages,
        src_access_mask: 0,
        dst_access_mask: dst_access,
    });
    let mut k: usize = 0;
    while k < subpass_dependencies.len()
        invariant
            k <= subpass_dependencies@.len(),
            dependencies@ == seq![external_dependency(has_depth)] + subpass_dependencies@.subrange(0, k as int),
        decreases subpass_dependencies@.len() - k,
    {
        dependencies.push(subpass_dependencies[k]);
        proof {
            assert(subpass_dependencies@.subrange(0, k + 1) =~= subpass_dependencies@.subrange(0, k as int).push(subpass_dependencies@[k as int]));
            assert(dependencies@ =~= seq![external_dependency(has_depth)] + subpass_dependencies@.subrange(0, k + 1));
        }
        k = k + 1;
    }
    assert(subpass_dependencies@.subrange(0, subpass_dependencies@.len() as int) =~= subpass_dependencies@);
    proof {
        match depth_attach_desc {
            Some(d) => {
                assert(attachments@ =~= attach_descs@.map_values(|d: AttachmentDescriptor| description_of(d)) + seq![description_of(*d)]);
            },
            None => {
                assert(attachments@ =~= attach_descs@.map_values(|d: AttachmentDescriptor| description_of(d)) + Seq::empty());
            },
        }
    }
    Ok(RenderPassPlan { attachments, subpasses, dependencies })
}

impl Default for AttachmentDescriptor {
    /// Undefined format, load and store operations, stencil operations following them,
    /// undefined layouts.
    fn default() -> (r: Self)
        ensures
            r == (AttachmentDescriptor {
                format: FORMAT_UNDEFINED,
                load_op: ATTACHMENT_LOAD_OP_LOAD,
                store_op: ATTACHMENT_STORE_OP_STORE,
                stencil_load_op: None,
                stencil_store_op: None,
                initial_layout: IMAGE_LAYOUT_UNDEFINED,
                final_layout: IMAGE_LAYOUT_UNDEFINED,
            }),
    {
        AttachmentDescriptor {
            format: FORMAT_UNDEFINED,
            load_op: ATTACHMENT_LOAD_OP_LOAD,
            store_op: ATTACHMENT_STORE_OP_STORE,
            stencil_load_op: None,
            stencil_store_op: None,
            initial_layout: IMAGE_LAYOUT_UNDEFINED,
            final_layout: IMAGE_LAYOUT_UNDEFINED,
        }
    }
}

impl Default for SubpassAttachmentDescriptor {
    /// Not attached, undefined layout.
    fn default() -> (r: Self)
        ensures
            r == (SubpassAttachmentDescriptor { attached: false, ref_layout: IMAGE_LAYOUT_UNDEFINED }),
    {
        SubpassAttachmentDescriptor { attached: false, ref_layout: IMAGE_LAYOUT_UNDEFINED }
    }
}

/// The descriptors one render pass is planned from.
#[derive(Debug)]
pub struct RenderPassDescriptors {
    pub color_attachments: Vec<AttachmentDescriptor>,
    pub depth_attachment: Option<AttachmentDescriptor>,
    pub subpasses: Vec<SubpassDescriptor>,
    pub dependencies: Vec<SubpassDependency>,
}

/// A color attachment that ends in `final_layout`, otherwise default.
pub open spec fn color_attachment(format: i32, final_layout: i32) -> AttachmentDescriptor {
    AttachmentDescriptor {
        format,
        load_op: ATTACHMENT_LOAD_OP_LOAD,
        store_op: ATTACHMENT_STORE_OP_STORE,
        stencil_load_op: None,
        stencil_store_op: None,
        initial_layout: IMAGE_LAYOUT_UNDEFINED,
        final_layout,
    }
}

/// A subpass attachment used in `layout`.
pub open spec fn used_in(layout: i32) -> SubpassAttachmentDescriptor {
    SubpassAttachmentDescriptor { attached: true, ref_layout: layout }
}

/// A subpass attachment left out.
pub open spec fn unused() -> SubpassAttachmentDescriptor {
    SubpassAttachmentDescriptor { attached: false, ref_layout: IMAGE_LAYOUT_UNDEFINED }
}

/// The base render pass: a color target and a motion vector target, both read by shaders
/// afterwards, and a depth buffer. The first subpass writes motion vectors and depth, the
/// second writes color while reading depth; depth writes of the first finish before the
/// depth reads of the second.
pub fn base_render_pass_descriptors(
    swapchain_format: i32,
    motion_vector_format: i32,
    depth_buffer_format: i32,
) -> (r: RenderPassDescriptors)
    ensures
        r.color_attachments@ == seq![
            color_attachment(swapchain_format, IMAGE_LAYOUT_SHADER_READ_ONLY_OPTIMAL),
            color_attachment(motion_vector_format, IMAGE_LAYOUT_SHADER_READ_ONLY_OPTIMAL),
        ],
        r.depth_attachment == Some(
            AttachmentDescriptor {
                format: depth_buffer_format,
                load_op: ATTACHMENT_LOAD_OP_LOAD,
                store_op: ATTACHMENT_STORE_OP_DONT_CARE,
                stencil_load_op: None,
                stencil_store_op: None,
                initial_layout: IMAGE_LAYOUT_UNDEFINED,
                final_layout: IMAGE_LAYOUT_DEPTH_STENCIL_ATTACHMENT_OPTIMAL,
            },
        ),
        r.subpasses@.len() == 2,
        r.subpasses@[0].color_attachments@ == seq![
            unused(),
            used_in(IMAGE_LAYOUT_COLOR_ATTACHMENT_OPTIMAL),
        ],
        r.subpasses@[0].depth_attachment == used_in(IMAGE_LAYOUT_DEPTH_STENCIL_ATTACHMENT_OPTIMAL),
        r.subpasses@[1].color_attachments@ == seq![
            used_in(IMAGE_LAYOUT_COLOR_ATTACHMENT_OPTIMAL),
            unused(),
        ],
        r.subpasses@[1].depth_attachment == used_in(IMAGE_LAYOUT_DEPTH_STENCIL_READ_ONLY_OPTIMAL),
        r.dependencies@ == seq![
            SubpassDependency {
                src_subpass: 0,
                dst_subpass: 1,
                src_stage_mask: PIPELINE_STAGE_LATE_FRAGMENT_TESTS,
                dst_stage_mask: PIPELINE_STAGE_EARLY_FRAGMENT_TESTS,
                src_access_mask: ACCESS_DEPTH_STENCIL_ATTACHMENT_WRITE,
                dst_access_mask: ACCESS_DEPTH_STENCIL_ATTACHMENT_READ,
            },
        ],
{
    let mut color_attachments: Vec<AttachmentDescriptor> = Vec::new();
    color_attachments.push(AttachmentDescriptor {
        format: swapchain_format,
        final_layout: IMAGE_LAYOUT_SHADER_READ_ONLY_OPTIMAL,
        ..AttachmentDescriptor::default()
    });
    color_attachments.push(AttachmentDescriptor {
        format: motion_vector_format,
        final_layout: IMAGE_LAYOUT_SHADER_READ_ONLY_OPTIMAL,
        ..AttachmentDescriptor::default()
    });
    let depth_attachment = AttachmentDescriptor {
        format: depth_buffer_format,
        store_op: ATTACHMENT_STORE_OP_DONT_CARE,
        final_layout: IMAGE_LAYOUT_DEPTH_STENCIL_ATTACHMENT_OPTIMAL,
        ..AttachmentDescriptor::default()
    };
    let mut first_colors: Vec<SubpassAttachmentDescriptor> = Vec::new();
    first_colors.push(SubpassAttachmentDescriptor { attached: false, ..SubpassAttachmentDescriptor::default() });
    first_colors.push(SubpassAttachmentDescriptor { attached: true, ref_layout: IMAGE_LAYOUT_COLOR_ATTACHMENT_OPTIMAL });
    let mut second_colors: Vec<SubpassAttachmentDescriptor> = Vec::new();
    second_colors.push(SubpassAttachmentDescriptor { attached: true, ref_layout: IMAGE_LAYOUT_COLOR_ATTACHMENT_OPTIMAL });
    second_colors.push(SubpassAttachmentDescriptor { attached: false, ..SubpassAttachmentDescriptor::default() });
    let mut subpasses: Vec<SubpassDescriptor> = Vec::new();
    subpasses.push(SubpassDescriptor {
        color_attachments: first_colors,
        depth_attachment: SubpassAttachmentDescriptor { attached: true, ref_layout: IMAGE_LAYOUT_DEPTH_STENCIL_ATTACHMENT_OPTIMAL },
    });
    subpasses.push(SubpassDescriptor {
        color_attachments: second_colors,
        depth_attachment: SubpassAttachmentDescriptor { attached: true, ref_layout: IMAGE_LAYOUT_DEPTH_STENCIL_READ_ONLY_OPTIMAL },
    });
    let mut dependencies: Vec<SubpassDependency> = Vec::new();
    dependencies.push(SubpassDependency {
        src_subpass: 0,
        dst_subpass: 1,
        src_stage_mask: PIPELINE_STAGE_LATE_FRAGMENT_TESTS,
        dst_stage_mask: PIPELINE_STAGE_EARLY_FRAGMENT_TESTS,
        src_access_mask: ACCESS_DEPTH_STENCIL_ATTACHMENT_WRITE,
        dst_access_mask: ACCESS_DEPTH_STENCIL_ATTACHMENT_READ,
    });
    proof {
        assert(color_attachments@ =~= seq![
            color_attachment(swapchain_format, IMAGE_LAYOUT_SHADER_READ_ONLY_OPTIMAL),
            color_attachment(motion_vector_format, IMAGE_LAYOUT_SHADER_READ_ONLY_OPTIMAL),
        ]);
        assert(subpasses@[0].color_attachments@ =~= seq![unused(), used_in(IMAGE_LAYOUT_COLOR_ATTACHMENT_OPTIMAL)]);
        assert(subpasses@[1].color_attachments@ =~= seq![used_in(IMAGE_LAYOUT_COLOR_ATTACHMENT_OPTIMAL), unused()]);
        assert(dependencies@ =~= seq![dependencies@[0]]);
    }
    RenderPassDescriptors { color_attachments, depth_attachment: Some(depth_attachment), subpasses, dependencies }
}

/// The postprocessing render pass: one color target that is presented afterwards, no
/// depth buffer, one subpass writing the color target, no extra dependencies.
pub fn postprocessing_render_pass_descriptors(swapchain_format: i32) -> (r: RenderPassDescriptors)
    ensures
        r.color_attachments@ == seq![color_attachment(swapchain_format, IMAGE_LAYOUT_PRESENT_SRC)],
        r.depth_attachment is None,
        r.subpasses@.len() == 1,
        r.subpasses@[0].color_attachments@ == seq![used_in(IMAGE_LAYOUT_COLOR_ATTACHMENT_OPTIMAL)],
        r.subpasses@[0].depth_attachment == unused(),
        r.dependencies@.len() == 0,
{
    let mut color_attachments: Vec<AttachmentDescriptor> = Vec::new();
    color_attachments.push(AttachmentDescriptor {
        format: swapchain_format,
        final_layout: IMAGE_LAYOUT_PRESENT_SRC,
        ..AttachmentDescriptor::default()
    });
    let mut colors: Vec<SubpassAttachmentDescriptor> = Vec::new();
    colors.push(SubpassAttachmentDescriptor { attached: true, ref_layout: IMAGE_LAYOUT_COLOR_ATTACHMENT_OPTIMAL });
    let mut subpasses: Vec<SubpassDescriptor> = Vec::new();
    subpasses.push(SubpassDescriptor {
        color_attachments: colors,
        depth_attachment: SubpassAttachmentDescriptor { attached: false, ..SubpassAttachmentDescriptor::default() },
    });
    proof {
        assert(color_attachments@ =~= seq![color_attachment(swapchain_format, IMAGE_LAYOUT_PRESENT_SRC)]);
        assert(subpasses@[0].color_attachments@ =~= seq![used_in(IMAGE_LAYOUT_COLOR_ATTACHMENT_OPTIMAL)]);
    }
    RenderPassDescriptors { color_attachments, depth_attachment: None, subpasses, dependencies: Vec::new() }
}

} // verus!
