//! The commands that draw one model in a frame: which vertex buffers and index buffer are
//! bound, which push constants the pass takes, and which draw is recorded.
use vstd::prelude::*;

verus! {

/// The buffers of a loaded model and the number of elements to draw: the vertex buffer
/// and its offset, the index buffer (if the model is indexed) and its offset and index
/// type, and the element count.
#[derive(Clone, Copy, Debug, PartialEq, Eq, Structural)]
pub struct ModelDetails {
    pub vertex_buffer: u64,
    pub vertex_buffer_offset: u64,
    pub index_buffer: Option<u64>,
    pub index_buffer_offset: u64,
    pub index_type: i32,
    pub element_count: u32,
}

/// How one model is drawn in a frame, besides its matrices: its instance buffer and
/// offset, and where the draw starts.
#[derive(Clone, Copy, Debug, PartialEq, Eq, Structural)]
pub struct ModelDraw {
    pub inst_vertex_buffer: Option<u64>,
    pub inst_vertex_buffer_offset: u64,
    pub first_element: u32,
    pub indexed_vertex_offset: i32,
    pub instance_count: u32,
    pub first_instance: u32,
}

/// Which push constants a pass takes.
#[derive(Clone, Copy, Debug, PartialEq, Eq, Structural)]
pub enum PushConstantsKind {
    /// The view-model matrix and that of the previous frame.
    DepthMotion,
    /// The view-model matrix and its normal matrix.
    BaseRender,
}

/// The draw command to record.
#[derive(Clone, Copy, Debug, PartialEq, Eq, Structural)]
pub enum DrawCommand {
    Indexed {
        index_count: u32,
        instance_count: u32,
        first_index: u32,
        vertex_offset: i32,
        first_instance: u32,
    },
    Plain { vertex_count: u32, instance_count: u32, first_vertex: u32, first_instance: u32 },
}

/// The commands that draw one model.
#[derive(Debug)]
pub struct RenderCommands {
    /// The vertex buffers to bind from binding 0, each with its offset.
    pub vertex_buffers: Vec<(u64, u64)>,
    /// The index buffer to bind, with its offset and index type.
    pub index_buffer: Option<(u64, u64, i32)>,
    pub push_constants: PushConstantsKind,
    pub draw: DrawCommand,
}

/// The vertex buffers bound for a model: its own, then its instance buffer when the draw
/// has one.
pub open spec fn bound_vertex_buffers(details: ModelDetails, draw: ModelDraw) -> Seq<(u64, u64)> {
    match draw.inst_vertex_buffer {
        Some(b) => seq![
            (details.vertex_buffer, details.vertex_buffer_offset),
            (b, draw.inst_vertex_buffer_offset),
        ],
        None => seq![(details.vertex_buffer, details.vertex_buffer_offset)],
    }
}

/// The draw of a model: indexed when it has an index buffer, plain otherwise.
pub open spec fn draw_of(details: ModelDetails, draw: ModelDraw) -> DrawCommand {
    if details.index_buffer is Some {
        DrawCommand::Indexed {
            index_count: details.element_count,
            instance_count: draw.instance_count,
            first_index: draw.first_element,
            vertex_offset: draw.indexed_vertex_offset,
            first_instance: draw.first_instance,
        }
    } else {
        DrawCommand::Plain {
            vertex_count: details.element_count,
            instance_count: draw.instance_count,
            first_vertex: draw.first_element,
            first_instance: draw.first_instance,
        }
    }
}

/// The draw recorded for a model covers what was asked for: it is indexed exactly when
/// the model has an index buffer, takes the model's element count, starts at the draw's
/// first element, and draws the draw's instances from its first instance; an indexed draw
/// adds the draw's vertex offset to each index.
pub proof fn lemma_draw_covers_requested_elements(details: ModelDetails, draw: ModelDraw)
    ensures
        match draw_of(details, draw) {
            DrawCommand::Indexed {
                index_count,
                instance_count,
                first_index,
                vertex_offset,
                first_instance,
            } => {
                &&& details.index_buffer is Some
                &&& index_count == details.element_count
                &&& first_index == draw.first_element
                &&& vertex_offset == draw.indexed_vertex_offset
                &&& instance_count == draw.instance_count
                &&& first_instance == draw.first_instance
            },
            DrawCommand::Plain { vertex_count, instance_count, first_vertex, first_instance } => {
                &&& details.index_buffer is None
                &&& vertex_count == details.element_count
                &&& first_vertex == draw.first_element
                &&& instance_count == draw.instance_count
                &&& first_instance == draw.first_instance
            },
        },
{
}

/// The vertex buffers bound for a model start with the model's own vertex buffer at
/// binding 0; the instance buffer follows at binding 1 exactly when the draw has one.
pub proof fn lemma_model_buffer_bound_first(details: ModelDetails, draw: ModelDraw)
    ensures
        bound_vertex_buffers(details, draw).len() == if draw.inst_vertex_buffer is Some {
            2int
        } else {
            1int
        },
        bound_vertex_buffers(details, draw)[0] == (details.vertex_buffer, details.vertex_buffer_offset),
        draw.inst_vertex_buffer matches Some(b) ==> bound_vertex_buffers(details, draw)[1] == (
            b,
            draw.inst_vertex_buffer_offset,
        ),
{
}

/// The commands that draw a model in one pass; nothing is drawn for a model that is not
/// loaded (no details).
pub fn render_commands(details: Option<ModelDetails>, draw: ModelDraw, is_depth_motion_pass: bool) -> (r:
    Option<RenderCommands>)
    ensures
        details is None <==> r is None,
        r matches Some(c) ==> {
            let d = details.unwrap();
            &&& c.vertex_buffers@ == bound_vertex_buffers(d, draw)
            &&& c.index_buffer == match d.index_buffer {
                Some(b) => Some((b, d.index_buffer_offset, d.index_type)),
                None => None,
            }
            &&& c.push_constants == if is_depth_motion_pass {
                PushConstantsKind::DepthMotion
            } else {
                PushConstantsKind::BaseRender
            }
            &&& c.draw == draw_of(d, draw)
        },
{
    let d = match details {
        Some(d) => d,
        None => return None,
    };
    let mut vertex_buffers: Vec<(u64, u64)> = Vec::new();
    vertex_buffers.push((d.vertex_buffer, d.vertex_buffer_offset));
    if let Some(b) = draw.inst_vertex_buffer {
        vertex_buffers.push((b, draw.inst_vertex_buffer_offset));
    }
    let index_buffer = match d.index_buffer {
        Some(b) => Some((b, d.index_buffer_offset, d.index_type)),
        None => None,
    };
    let push_constants = if is_depth_motion_pass {
        PushConstantsKind::DepthMotion
    } else {
        PushConstantsKind::BaseRender
    };
    let command = if d.index_buffer.is_some() {
        DrawCommand::Indexed {
            index_count: d.element_count,
            instance_count: draw.instance_count,
            first_index: draw.first_element,
            vertex_offset: draw.indexed_vertex_offset,
            first_instance: draw.first_instance,
        }
    } else {
        DrawCommand::Plain {
            vertex_count: d.element_count,
            instance_count: draw.instance_count,
            first_vertex: draw.first_element,
            first_instance: draw.first_instance,
        }
    };
    proof {
        assert(vertex_buffers@ =~= bound_vertex_buffers(d, draw));
    }
    Some(RenderCommands { vertex_buffers, index_buffer, push_constants, draw: command })
}

} // verus!
