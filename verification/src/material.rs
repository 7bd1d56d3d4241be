//! Materials: how the pipelines of a material are planned from its shader and vertex
//! types, and which pipelines a loaded material gives up when destroyed.
use vstd::prelude::*;
use crate::vertex::{VertexAttributeBuilder, VertexInputAttributeDescription, VertexInputBindingDescription};

verus! {

/// How a pipeline uses the depth buffer.
#[derive(Clone, Copy, Debug, PartialEq, Eq, Structural)]
pub enum DepthBufferUsageMode {
    DontUse,
    WriteIfLess,
    WriteIfEqual,
}

/// The parts a shader's source is named from: prefix, shader name, suffix and entry point.
#[derive(Debug)]
pub struct ShaderNames {
    pub prefix: String,
    pub name: String,
    pub suffix: String,
    pub entry: String,
}

/// One pipeline of a material: its shaders, its subpass of the base render pass, the
/// color components it writes (none for the default blend state) and its depth test.
#[derive(Debug)]
pub struct MaterialPipelinePlan {
    pub shaders: ShaderNames,
    pub subpass: u32,
    pub color_components: Option<u32>,
    pub depth_mode: DepthBufferUsageMode,
}

/// Everything a material's pipelines are created from: the vertex input of the vertex
/// type followed by that of the instance type, and the two pipelines, planned only for
/// opaque materials.
#[derive(Debug)]
pub struct MaterialPlan {
    pub binding_descriptions: Vec<VertexInputBindingDescription>,
    pub attribute_descriptions: Vec<VertexInputAttributeDescription>,
    pub depth_and_motion: Option<MaterialPipelinePlan>,
    pub base_render: Option<MaterialPipelinePlan>,
}

/// The red and green color components (VK_COLOR_COMPONENT_R_BIT | G_BIT), which the depth
/// and motion pass writes its motion vectors to.
pub const COLOR_COMPONENTS_RED_GREEN: u32 = 0x3;

/// Whether `names` are `prefix`, `name`, `suffix` and `entry`.
pub open spec fn names_are(
    names: ShaderNames,
    prefix: Seq<char>,
    name: Seq<char>,
    suffix: Seq<char>,
    entry: Seq<char>,
) -> bool {
    &&& names.prefix@ == prefix
    &&& names.name@ == name
    &&& names.suffix@ == suffix
    &&& names.entry@ == entry
}

/// The suffix of the shaders of a material: `_instanced` when the instance type has
/// vertex bindings, none otherwise.
pub open spec fn shader_suffix(is_instanced: bool) -> Seq<char> {
    if is_instanced {
        "_instanced"@
    } else {
        ""@
    }
}

/// Plans the pipelines of a material of vertex type `vertex` and instance type `instance`,
/// shader `shader_name` with entry point `shader_entry`. The vertex input is the vertex
/// type's followed by the instance type's. A material whose instance type has bindings
/// uses the `_instanced` shaders. Only an opaque material gets pipelines: the depth and
/// motion pipeline (shaders prefixed `depth_and_motion_`, subpass 0, writing red and green,
/// depth written where less) and the base render pipeline (no prefix, subpass 1, default
/// blending, depth written where equal).
pub fn plan_material(
    vertex: &VertexAttributeBuilder,
    instance: &VertexAttributeBuilder,
    shader_name: &String,
    shader_entry: &String,
    is_opaque: bool,
) -> (r: MaterialPlan)
    ensures
        r.binding_descriptions@ == vertex.bindings() + instance.bindings(),
        r.attribute_descriptions@ == vertex.attributes() + instance.attributes(),
        !is_opaque ==> r.depth_and_motion is None && r.base_render is None,
        is_opaque ==> (r.depth_and_motion matches Some(p) && names_are(
            p.shaders,
            "depth_and_motion_"@,
            shader_name@,
            shader_suffix(instance.bindings().len() > 0),
            shader_entry@,
        ) && p.subpass == 0 && p.color_components == Some(COLOR_COMPONENTS_RED_GREEN)
            && p.depth_mode == DepthBufferUsageMode::WriteIfLess),
        is_opaque ==> (r.base_render matches Some(p) && names_are(
            p.shaders,
            ""@,
            shader_name@,
            shader_suffix(instance.bindings().len() > 0),
            shader_entry@,
        ) && p.subpass == 1 && p.color_components is None && p.depth_mode
            == DepthBufferUsageMode::WriteIfEqual),
{
    let mut binding_descriptions: Vec<VertexInputBindingDescription> = Vec::new();
    binding_descriptions.extend_from_slice(vertex.build_bindings());
    binding_descriptions.extend_from_slice(instance.build_bindings());
    let mut attribute_descriptions: Vec<VertexInputAttributeDescription> = Vec::new();
    attribute_descriptions.extend_from_slice(vertex.build_attributes());
    attribute_descriptions.extend_from_slice(instance.build_attributes());
    let is_instanced = instance.build_bindings().len() > 0;
    if !is_opaque {
        return MaterialPlan { binding_descriptions, attribute_descriptions, depth_and_motion: None, base_render: None };
    }
    let depth_and_motion = MaterialPipelinePlan {
        shaders: ShaderNames {
            prefix: String::from_str("depth_and_motion_"),
            name: shader_name.clone(),
            suffix: if is_instanced {
                String::from_str("_instanced")
            } else {
                String::from_str("")
            },
            entry: shader_entry.clone(),
        },
        subpass: 0,
        color_components: Some(COLOR_COMPONENTS_RED_GREEN),
        depth_mode: DepthBufferUsageMode::WriteIfLess,
    };
    let base_render = MaterialPipelinePlan {
        shaders: ShaderNames {
            prefix: String::from_str(""),
            name: shader_name.clone(),
            suffix: if is_instanced {
                String::from_str("_instanced")
            } else {
                String::from_str("")
            },
            entry: shader_entry.clone(),
        },
        subpass: 1,
        color_components: None,
        depth_mode: DepthBufferUsageMode::WriteIfEqual,
    };
    MaterialPlan {
        binding_descriptions,
        attribute_descriptions,
        depth_and_motion: Some(depth_and_motion),
        base_render: Some(base_render),
    }
}

/// A material: whether it is loaded, and the raw handles of its depth and motion pipeline
/// and of its base render pipeline.
#[derive(Clone, Copy, Debug, PartialEq, Eq, Structural)]
pub struct Material {
    pub is_loaded: bool,
    pub depth_motion: Option<u64>,
    pub base_render: Option<u64>,
}

impl Material {
    /// The pipelines to destroy, in this order: the depth and motion pipeline, then the
    /// base render pipeline, each when the material has it. The material keeps its handles.
    pub fn destroy(&self) -> (r: Vec<u64>)
        ensures
            r@ == match self.depth_motion {
                Some(p) => seq![p],
                None => Seq::<u64>::empty(),
            } + match self.base_render {
                Some(p) => seq![p],
                None => Seq::<u64>::empty(),
            },
    {
        let mut r: Vec<u64> = Vec::new();
        if let Some(p) = self.depth_motion {
            r.push(p);
        }
        if let Some(p) = self.base_render {
            r.push(p);
        }
        proof {
            let a = match self.depth_motion {
                Some(p) => seq![p],
                None => Seq::<u64>::empty(),
            };
            let b = match self.base_render {
                Some(p) => seq![p],
                None => Seq::<u64>::empty(),
            };
            assert(r@ =~= a + b);
        }
        r
    }
}

} // verus!
