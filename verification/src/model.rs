//! Indexed models on the GPU: a vertex buffer, a 16- or 32-bit index buffer chosen by the
//! number of vertices, and optionally a buffer of per-instance vertex data.
use vstd::prelude::*;
use crate::buffer::{
    bytes_of, can_submit, write_outcome, Buffer, BufferCopy, BufferCreateInfo, BufferError, BufferRelease,
    BufferState, IntoBufferData, MappedWrite,
};
use crate::vulkan::{
    BUFFER_USAGE_INDEX_BUFFER, BUFFER_USAGE_VERTEX_BUFFER, INDEX_TYPE_UINT16, INDEX_TYPE_UINT32,
};

verus! {

/// Why a model operation failed.
#[derive(Clone, Copy, Debug, PartialEq, Eq, Structural)]
pub enum ModelError {
    /// More vertices were asked for than 32-bit indices can address.
    TooManyVertices,
    /// Instance data was given to a model without an instance buffer.
    NoInstanceBuffer,
    /// A buffer the model renders from was not created yet.
    NotCreated,
    /// Writing new contents to one of the model's buffers failed.
    Buffer(BufferError),
}

/// One of the buffers of a model.
#[derive(Clone, Copy, Debug, PartialEq, Eq, Structural)]
pub enum ModelBuffer {
    Index,
    Vertex,
    Instance,
}

/// Where the new contents of a model go: the index write (with the indices narrowed to 16
/// bits when the model uses 16-bit indices) and the vertex write.
#[derive(Debug)]
pub struct ModelWrite {
    pub index_write: Option<MappedWrite>,
    pub narrowed_indices: Option<Vec<u16>>,
    pub vertex_write: Option<MappedWrite>,
}

/// What a model contributes to a frame: the buffers to bind and the counts to draw.
#[derive(Clone, Copy, Debug, PartialEq, Eq, Structural)]
pub struct ModelDrawInfo {
    pub is_static: bool,
    pub is_opaque: bool,
    pub vertex_buffer: u64,
    pub inst_vertex_buffer: Option<u64>,
    pub index_buffer: u64,
    pub index_type: i32,
    pub element_count: u32,
    pub instance_count: u32,
}

/// The Vulkan objects a model gives up when destroyed, in the order to destroy them.
#[derive(Clone, Copy, Debug, PartialEq, Eq, Structural)]
pub struct ModelRelease {
    pub index: BufferRelease,
    pub vertex: BufferRelease,
    pub instance: Option<BufferRelease>,
}

/// A model with vertices of `TVert` and, when instanced, instance data of `TInstVert`.
#[derive(Debug)]
pub struct Model<TVert, TInstVert> {
    vertex_buffer: Buffer<TVert>,
    inst_vertex_buffer: Option<Buffer<TInstVert>>,
    index_buffer_16: Option<Buffer<u16>>,
    index_buffer_32: Option<Buffer<u32>>,
    index_type: i32,
    require_submit: bool,
}

/// The state of a fresh buffer.
pub open spec fn fresh_buffer(usage: u32, max_element_count: usize, require_submit: bool) -> BufferState {
    BufferState {
        usage,
        curr_element_count: 0,
        max_element_count,
        buffer: None,
        buffer_memory: None,
        require_submit,
        staging_buffer: None,
        staging_buffer_memory: None,
    }
}

/// Whether a model for `max_vertex_count` vertices indexes them with 16 bits.
pub open spec fn uses_16_bit_indices_for(max_vertex_count: int) -> bool {
    max_vertex_count <= u16::MAX
}

/// The index `i` narrowed to 16 bits, as the 16-bit index buffer stores it.
pub open spec fn narrow_index(i: u32) -> u16 {
    (i % 0x10000) as u16
}

/// The copy of a buffer's current contents from its staging buffer.
pub open spec fn submit_copy<T>(s: BufferState) -> BufferCopy {
    BufferCopy {
        src: s.staging_buffer.unwrap(),
        dst: s.buffer.unwrap(),
        size: bytes_of::<T>(s.curr_element_count as nat) as u64,
    }
}

/// What destroying a buffer in state `s` gives up.
pub open spec fn release_of(s: BufferState) -> BufferRelease {
    BufferRelease {
        buffer: s.buffer,
        buffer_memory: s.buffer_memory,
        staging_buffer: s.staging_buffer,
        staging_buffer_memory: s.staging_buffer_memory,
    }
}

/// A buffer in state `s` after it was destroyed.
pub open spec fn destroyed(s: BufferState) -> BufferState {
    BufferState {
        buffer: None,
        buffer_memory: None,
        staging_buffer: None,
        staging_buffer_memory: None,
        ..s
    }
}

/// Whether `narrowed` holds each of `indices` narrowed to 16 bits, in order.
pub open spec fn is_narrowing(narrowed: Seq<u16>, indices: Seq<u32>) -> bool {
    &&& narrowed.len() == indices.len()
    &&& forall|i: int| 0 <= i < indices.len() ==> narrowed[i] == narrow_index(#[trigger] indices[i])
}

/// Narrowing keeps every index a model with 16-bit indices can use: an index of one of at
/// most `u16::MAX` vertices is the same after narrowing.
pub proof fn lemma_narrowing_keeps_vertex_indices(narrowed: Seq<u16>, indices: Seq<u32>, max_vertex_count: int)
    requires
        is_narrowing(narrowed, indices),
        uses_16_bit_indices_for(max_vertex_count),
        forall|i: int| 0 <= i < indices.len() ==> #[trigger] indices[i] < max_vertex_count,
    ensures
        forall|i: int| 0 <= i < indices.len() ==> #[trigger] narrowed[i] == indices[i],
{
    assert forall|i: int| 0 <= i < indices.len() implies #[trigger] narrowed[i] == indices[i] by {
        assert(narrowed[i] == narrow_index(indices[i]));
        assert(indices[i] < 0x10000);
    }
}

/// The indices narrowed to 16 bits, each one kept modulo 2^16.
pub fn narrow_indices(indices: &Vec<u32>) -> (r: Vec<u16>)
    ensures
        is_narrowing(r@, indices@),
{
    let mut r: Vec<u16> = Vec::new();
    let mut k: usize = 0;
    while k < indices.len()
        invariant
            k <= indices@.len(),
            r@.len() == k,
            forall|i: int| 0 <= i < k ==> r@[i] == narrow_index(#[trigger] indices@[i]),
        decreases indices@.len() - k,
    {
        let index = indices[k];
        let narrowed = (index % 0x10000) as u16;
        r.push(narrowed);
        k = k + 1;
    }
    r
}

impl<TVert, TInstVert> Model<TVert, TInstVert> {
    /// The model has exactly one index buffer, of the width its index type names.
    pub closed spec fn wf(&self) -> bool {
        if self.index_type == INDEX_TYPE_UINT16 {
            self.index_buffer_16 is Some && self.index_buffer_32 is None
        } else {
            self.index_type == INDEX_TYPE_UINT32 && self.index_buffer_16 is None
                && self.index_buffer_32 is Some
        }
    }

    /// Whether the indices are 16 bits wide.
    pub closed spec fn uses_16_bit_indices(&self) -> bool {
        self.index_buffer_16 is Some
    }

    /// The Vulkan index type of the index buffer.
    pub closed spec fn index_type_spec(&self) -> i32 {
        self.index_type
    }

    /// Whether the contents are filled through staging buffers.
    pub closed spec fn requires_submit(&self) -> bool {
        self.require_submit
    }

    /// The state of the index buffer.
    pub closed spec fn index_state(&self) -> BufferState {
        if self.index_buffer_16 is Some {
            self.index_buffer_16.unwrap().state()
        } else {
            self.index_buffer_32.unwrap().state()
        }
    }

    /// The state of the vertex buffer.
    pub closed spec fn vertex_state(&self) -> BufferState {
        self.vertex_buffer.state()
    }

    /// The state of the instance buffer, when the model has one.
    pub closed spec fn instance_state(&self) -> Option<BufferState> {
        match self.inst_vertex_buffer {
            Some(b) => Some(b.state()),
            None => None,
        }
    }

    /// The state of one of the model's buffers (none for the instance buffer of a model
    /// without one).
    pub open spec fn buffer_state(&self, which: ModelBuffer) -> Option<BufferState> {
        match which {
            ModelBuffer::Index => Some(self.index_state()),
            ModelBuffer::Vertex => Some(self.vertex_state()),
            ModelBuffer::Instance => self.instance_state(),
        }
    }

    /// The bytes `count` elements of one of the model's buffers take.
    pub open spec fn buffer_bytes(&self, which: ModelBuffer, count: nat) -> nat {
        match which {
            ModelBuffer::Index => if self.uses_16_bit_indices() {
                bytes_of::<u16>(count)
            } else {
                bytes_of::<u32>(count)
            },
            ModelBuffer::Vertex => bytes_of::<TVert>(count),
            ModelBuffer::Instance => bytes_of::<TInstVert>(count),
        }
    }

    /// A model for at most `max_vertex_count` vertices and `max_index_count` indices, with
    /// no Vulkan objects yet. Refused for more vertices than 32-bit indices address; up to
    /// `u16::MAX` vertices are indexed with 16 bits, more with 32.
    pub fn new(max_vertex_count: usize, max_index_count: usize, require_submit: bool) -> (r:
        Result<Self, ModelError>)
        ensures
            max_vertex_count > u32::MAX <==> r is Err,
            r matches Err(e) ==> e == ModelError::TooManyVertices,
            r matches Ok(m) ==> {
                &&& m.wf()
                &&& m.uses_16_bit_indices() == uses_16_bit_indices_for(max_vertex_count as int)
                &&& m.index_type_spec() == if uses_16_bit_indices_for(max_vertex_count as int) {
                    INDEX_TYPE_UINT16
                } else {
                    INDEX_TYPE_UINT32
                }
                &&& m.requires_submit() == require_submit
                &&& m.index_state() == fresh_buffer(
                    BUFFER_USAGE_INDEX_BUFFER,
                    max_index_count,
                    require_submit,
                )
                &&& m.vertex_state() == fresh_buffer(
                    BUFFER_USAGE_VERTEX_BUFFER,
                    max_vertex_count,
                    require_submit,
                )
                &&& m.instance_state() is None
            },
    {
        let index_buffer_16: Option<Buffer<u16>>;
        let index_buffer_32: Option<Buffer<u32>>;
        let index_type: i32;
        if max_vertex_count as u64 > 0xFFFF_FFFFu64 {
            return Err(ModelError::TooManyVertices);
        } else if max_vertex_count > 0xFFFF {
            index_buffer_16 = None;
            index_buffer_32 = Some(
                Buffer::new(BUFFER_USAGE_INDEX_BUFFER, max_index_count, require_submit),
            );
            index_type = INDEX_TYPE_UINT32;
        } else {
            index_buffer_16 = Some(
                Buffer::new(BUFFER_USAGE_INDEX_BUFFER, max_index_count, require_submit),
            );
            index_buffer_32 = None;
            index_type = INDEX_TYPE_UINT16;
        }
        Ok(
            Model {
                vertex_buffer: Buffer::new(
                    BUFFER_USAGE_VERTEX_BUFFER,
                    max_vertex_count,
                    require_submit,
                ),
                inst_vertex_buffer: None,
                index_buffer_16,
                index_buffer_32,
                index_type,
                require_submit,
            },
        )
    }

    /// As `new`, with an instance buffer for at most `max_inst_vertex_count` instances.
    pub fn new_instanced(
        max_vertex_count: usize,
        max_inst_vertex_count: usize,
        max_index_count: usize,
        require_submit: bool,
    ) -> (r: Result<Self, ModelError>)
        ensures
            max_vertex_count > u32::MAX <==> r is Err,
            r matches Err(e) ==> e == ModelError::TooManyVertices,
            r matches Ok(m) ==> {
                &&& m.wf()
                &&& m.uses_16_bit_indices() == uses_16_bit_indices_for(max_vertex_count as int)
                &&& m.index_type_spec() == if uses_16_bit_indices_for(max_vertex_count as int) {
                    INDEX_TYPE_UINT16
                } else {
                    INDEX_TYPE_UINT32
                }
                &&& m.requires_submit() == require_submit
                &&& m.index_state() == fresh_buffer(
                    BUFFER_USAGE_INDEX_BUFFER,
                    max_index_count,
                    require_submit,
                )
                &&& m.vertex_state() == fresh_buffer(
                    BUFFER_USAGE_VERTEX_BUFFER,
                    max_vertex_count,
                    require_submit,
                )
                &&& m.instance_state() == Some(
                    fresh_buffer(BUFFER_USAGE_VERTEX_BUFFER, max_inst_vertex_count, require_submit),
                )
            },
    {
        let mut model = match Self::new(max_vertex_count, max_index_count, require_submit) {
            Ok(m) => m,
            Err(e) => return Err(e),
        };
        model.inst_vertex_buffer = Some(
            Buffer::new(BUFFER_USAGE_VERTEX_BUFFER, max_inst_vertex_count, require_submit),
        );
        Ok(model)
    }

    /// The buffers to create, in the order they are created: the index buffer, the vertex
    /// buffer, then the instance buffer when there is one.
    pub fn buffers_to_create(&self) -> (r: Vec<ModelBuffer>)
        ensures
            r@ == if self.instance_state() is Some {
                seq![ModelBuffer::Index, ModelBuffer::Vertex, ModelBuffer::Instance]
            } else {
                seq![ModelBuffer::Index, ModelBuffer::Vertex]
            },
    {
        let mut r: Vec<ModelBuffer> = Vec::new();
        r.push(ModelBuffer::Index);
        r.push(ModelBuffer::Vertex);
        if self.inst_vertex_buffer.is_some() {
            r.push(ModelBuffer::Instance);
        }
        r
    }

    /// How one of the model's buffers is created (see `Buffer::buffer_create_info`), and
    /// how its staging buffer is, when it has one; none for a missing instance buffer.
    pub fn create_infos(&self, which: ModelBuffer) -> (r: Option<
        (BufferCreateInfo, Option<BufferCreateInfo>),
    >)
        requires
            self.wf(),
            self.buffer_state(which) matches Some(s) ==> self.buffer_bytes(
                which,
                s.max_element_count as nat,
            ) <= u64::MAX,
        ensures
            self.buffer_state(which) is None <==> r is None,
            r matches Some((info, staging)) ==> {
                let s = self.buffer_state(which).unwrap();
                let size = self.buffer_bytes(which, s.max_element_count as nat);
                &&& info.size == size
                &&& info.usage == if s.require_submit {
                    s.usage | crate::vulkan::BUFFER_USAGE_TRANSFER_DST
                } else {
                    s.usage
                }
                &&& info.memory_properties == if s.require_submit {
                    crate::vulkan::MEMORY_PROPERTY_DEVICE_LOCAL
                } else {
                    crate::vulkan::MEMORY_PROPERTY_HOST_COHERENT
                        | crate::vulkan::MEMORY_PROPERTY_HOST_VISIBLE
                }
                &&& staging == if s.require_submit {
                    Some(
                        BufferCreateInfo {
                            size: size as u64,
                            usage: crate::vulkan::BUFFER_USAGE_TRANSFER_SRC,
                            memory_properties: crate::vulkan::MEMORY_PROPERTY_HOST_COHERENT
                                | crate::vulkan::MEMORY_PROPERTY_HOST_VISIBLE,
                        },
                    )
                } else {
                    None
                }
            },
    {
        match which {
            ModelBuffer::Index => {
                if let Some(b) = &self.index_buffer_16 {
                    Some((b.buffer_create_info(), b.staging_buffer_create_info()))
                } else {
                    let b = self.index_buffer_32.as_ref().unwrap();
                    Some((b.buffer_create_info(), b.staging_buffer_create_info()))
                }
            },
            ModelBuffer::Vertex => Some(
                (self.vertex_buffer.buffer_create_info(), self.vertex_buffer.staging_buffer_create_info()),
            ),
            ModelBuffer::Instance => match &self.inst_vertex_buffer {
                Some(b) => Some((b.buffer_create_info(), b.staging_buffer_create_info())),
                None => None,
            },
        }
    }

    /// Records the created buffer, and the created staging buffer when there is one, of
    /// one of the model's buffers; nothing changes for a missing instance buffer.
    pub fn set_created(
        &mut self,
        which: ModelBuffer,
        buffer: u64,
        buffer_memory: u64,
        staging: Option<(u64, u64)>,
    )
        requires
            old(self).wf(),
        ensures
            final(self).wf(),
            final(self).uses_16_bit_indices() == old(self).uses_16_bit_indices(),
            final(self).index_type_spec() == old(self).index_type_spec(),
            final(self).requires_submit() == old(self).requires_submit(),
            forall|other: ModelBuffer|
                other != which ==> #[trigger] final(self).buffer_state(other) == old(
                    self,
                ).buffer_state(other),
            final(self).buffer_state(which) == match old(self).buffer_state(which) {
                Some(s) => Some(
                    match staging {
                        Some((sb, sm)) => BufferState {
                            buffer: Some(buffer),
                            buffer_memory: Some(buffer_memory),
                            staging_buffer: Some(sb),
                            staging_buffer_memory: Some(sm),
                            ..s
                        },
                        None => BufferState {
                            buffer: Some(buffer),
                            buffer_memory: Some(buffer_memory),
                            ..s
                        },
                    },
                ),
                None => None,
            },
    {
        match which {
            ModelBuffer::Index => {
                if self.index_buffer_16.is_some() {
                    let mut b = self.index_buffer_16.take().unwrap();
                    b.set_buffer(buffer, buffer_memory);
                    if let Some((sb, sm)) = staging {
                        b.set_staging_buffer(sb, sm);
                    }
                    self.index_buffer_16 = Some(b);
                } else {
                    let mut b = self.index_buffer_32.take().unwrap();
                    b.set_buffer(buffer, buffer_memory);
                    if let Some((sb, sm)) = staging {
                        b.set_staging_buffer(sb, sm);
                    }
                    self.index_buffer_32 = Some(b);
                }
            },
            ModelBuffer::Vertex => {
                self.vertex_buffer.set_buffer(buffer, buffer_memory);
                if let Some((sb, sm)) = staging {
                    self.vertex_buffer.set_staging_buffer(sb, sm);
                }
            },
            ModelBuffer::Instance => {
                if self.inst_vertex_buffer.is_some() {
                    let mut b = self.inst_vertex_buffer.take().unwrap();
                    b.set_buffer(buffer, buffer_memory);
                    if let Some((sb, sm)) = staging {
                        b.set_staging_buffer(sb, sm);
                    }
                    self.inst_vertex_buffer = Some(b);
                }
            },
        }
    }

    /// What writing `count` indices does to the index buffer (see `write_outcome`), with
    /// the index width of this model.
    pub open spec fn index_write_outcome(&self, count: nat) -> (
        BufferState,
        Result<Option<MappedWrite>, BufferError>,
    ) {
        if self.uses_16_bit_indices() {
            write_outcome::<u16>(self.index_state(), count)
        } else {
            write_outcome::<u32>(self.index_state(), count)
        }
    }

    /// Takes new vertices and indices: the indices first (narrowed to 16 bits when the
    /// model uses 16-bit indices), then the vertices, each as `Buffer::set_data` does. A
    /// refused index write changes nothing; a refused vertex write keeps the new indices.
    pub fn set_data<D: IntoBufferData<TVert>>(&mut self, vertex_data: &D, index_data: &Vec<u32>) -> (r:
        Result<ModelWrite, ModelError>)
        requires
            old(self).wf(),
            old(self).buffer_bytes(ModelBuffer::Index, old(self).index_state().max_element_count as nat)
                <= u64::MAX,
            old(self).buffer_bytes(ModelBuffer::Vertex, old(self).vertex_state().max_element_count as nat)
                <= u64::MAX,
        ensures
            final(self).wf(),
            final(self).uses_16_bit_indices() == old(self).uses_16_bit_indices(),
            final(self).index_type_spec() == old(self).index_type_spec(),
            final(self).requires_submit() == old(self).requires_submit(),
            final(self).instance_state() == old(self).instance_state(),
            ({
                let (index_after, index_result) = old(self).index_write_outcome(index_data@.len());
                let (vertex_after, vertex_result) = write_outcome::<TVert>(
                    old(self).vertex_state(),
                    vertex_data.buffer_elements().len(),
                );
                match index_result {
                    Err(e) => r == Err::<ModelWrite, ModelError>(ModelError::Buffer(e))
                        && final(self).index_state() == old(self).index_state()
                        && final(self).vertex_state() == old(self).vertex_state(),
                    Ok(index_write) => {
                        &&& final(self).index_state() == index_after
                        &&& final(self).vertex_state() == vertex_after
                        &&& match vertex_result {
                            Err(e) => r == Err::<ModelWrite, ModelError>(ModelError::Buffer(e)),
                            Ok(vertex_write) => r matches Ok(w) && w.index_write == index_write
                                && w.vertex_write == vertex_write && (if old(
                                self,
                            ).uses_16_bit_indices() {
                                w.narrowed_indices matches Some(v) && is_narrowing(v@, index_data@)
                            } else {
                                w.narrowed_indices is None
                            }),
                        }
                    },
                }
            }),
    {
        let index_write: Option<MappedWrite>;
        let narrowed_indices: Option<Vec<u16>>;
        if self.index_buffer_16.is_some() {
            let narrowed = narrow_indices(index_data);
            let mut b = self.index_buffer_16.take().unwrap();
            let written = b.set_data(&narrowed);
            self.index_buffer_16 = Some(b);
            match written {
                Ok(w) => {
                    index_write = w;
                },
                Err(e) => return Err(ModelError::Buffer(e)),
            }
            narrowed_indices = Some(narrowed);
        } else {
            let mut b = self.index_buffer_32.take().unwrap();
            let written = b.set_data(index_data);
            self.index_buffer_32 = Some(b);
            match written {
                Ok(w) => {
                    index_write = w;
                },
                Err(e) => return Err(ModelError::Buffer(e)),
            }
            narrowed_indices = None;
        }
        match self.vertex_buffer.set_data(vertex_data) {
            Ok(vertex_write) => Ok(ModelWrite { index_write, narrowed_indices, vertex_write }),
            Err(e) => Err(ModelError::Buffer(e)),
        }
    }

    /// Takes new instance data, as `Buffer::set_data` does; refused for a model without an
    /// instance buffer.
    pub fn set_inst_data<D: IntoBufferData<TInstVert>>(&mut self, inst_data: &D) -> (r: Result<
        Option<MappedWrite>,
        ModelError,
    >)
        requires
            old(self).wf(),
            old(self).instance_state() matches Some(s) ==> old(self).buffer_bytes(
                ModelBuffer::Instance,
                s.max_element_count as nat,
            ) <= u64::MAX,
        ensures
            final(self).wf(),
            final(self).uses_16_bit_indices() == old(self).uses_16_bit_indices(),
            final(self).index_type_spec() == old(self).index_type_spec(),
            final(self).requires_submit() == old(self).requires_submit(),
            final(self).index_state() == old(self).index_state(),
            final(self).vertex_state() == old(self).vertex_state(),
            match old(self).instance_state() {
                None => r == Err::<Option<MappedWrite>, ModelError>(ModelError::NoInstanceBuffer)
                    && final(self).instance_state() is None,
                Some(s) => {
                    let (after, result) = write_outcome::<TInstVert>(
                        s,
                        inst_data.buffer_elements().len(),
                    );
                    &&& final(self).instance_state() == Some(after)
                    &&& r == match result {
                        Ok(w) => Ok::<Option<MappedWrite>, ModelError>(w),
                        Err(e) => Err(ModelError::Buffer(e)),
                    }
                },
            },
    {
        if self.inst_vertex_buffer.is_some() {
            let mut b = self.inst_vertex_buffer.take().unwrap();
            let written = b.set_data(inst_data);
            self.inst_vertex_buffer = Some(b);
            match written {
                Ok(w) => Ok(w),
                Err(e) => Err(ModelError::Buffer(e)),
            }
        } else {
            Err(ModelError::NoInstanceBuffer)
        }
    }

    /// Whether the contents have to be copied from the staging buffers; a model filled
    /// directly needs no submit.
    pub fn needs_submit(&self) -> (r: bool)
        ensures
            r == self.requires_submit(),
    {
        self.require_submit
    }

    /// Whether the model has a buffer of instance data.
    pub fn has_instance_buffer(&self) -> (r: bool)
        ensures
            r == self.instance_state() is Some,
    {
        self.inst_vertex_buffer.is_some()
    }

    /// Whether one of the model's buffers exists and has its Vulkan buffer.
    pub fn has_buffer(&self, which: ModelBuffer) -> (r: bool)
        requires
            self.wf(),
        ensures
            r == (self.buffer_state(which) matches Some(s) && s.buffer is Some),
    {
        match which {
            ModelBuffer::Index => {
                if let Some(b) = &self.index_buffer_16 {
                    b.raw_buffer().is_some()
                } else {
                    self.index_buffer_32.as_ref().unwrap().raw_buffer().is_some()
                }
            },
            ModelBuffer::Vertex => self.vertex_buffer.raw_buffer().is_some(),
            ModelBuffer::Instance => match &self.inst_vertex_buffer {
                Some(b) => b.raw_buffer().is_some(),
                None => false,
            },
        }
    }

    /// Whether the copies from the staging buffers can all be recorded (see
    /// `write_submit_to_command_buffer`).
    pub fn submit_ready(&self) -> (r: bool)
        requires
            self.wf(),
        ensures
            r == ((if self.uses_16_bit_indices() {
                can_submit::<u16>(self.index_state())
            } else {
                can_submit::<u32>(self.index_state())
            }) && can_submit::<TVert>(self.vertex_state()) && (self.instance_state() matches Some(
                s,
            ) ==> can_submit::<TInstVert>(s))),
    {
        let index_ready = if let Some(b) = &self.index_buffer_16 {
            b.submit_ready()
        } else {
            self.index_buffer_32.as_ref().unwrap().submit_ready()
        };
        let instance_ready = match &self.inst_vertex_buffer {
            Some(b) => b.submit_ready(),
            None => true,
        };
        index_ready && self.vertex_buffer.submit_ready() && instance_ready
    }

    /// The copies of the current contents from the staging buffers: index buffer, vertex
    /// buffer, then instance buffer when there is one.
    pub fn write_submit_to_command_buffer(&self) -> (r: Vec<BufferCopy>)
        requires
            self.wf(),
            if self.uses_16_bit_indices() {
                can_submit::<u16>(self.index_state())
            } else {
                can_submit::<u32>(self.index_state())
            },
            can_submit::<TVert>(self.vertex_state()),
            self.instance_state() matches Some(s) ==> can_submit::<TInstVert>(s),
        ensures
            r@ == seq![
                if self.uses_16_bit_indices() {
                    submit_copy::<u16>(self.index_state())
                } else {
                    submit_copy::<u32>(self.index_state())
                },
                submit_copy::<TVert>(self.vertex_state()),
            ] + match self.instance_state() {
                Some(s) => seq![submit_copy::<TInstVert>(s)],
                None => Seq::<BufferCopy>::empty(),
            },
    {
        let mut r: Vec<BufferCopy> = Vec::new();
        if let Some(b) = &self.index_buffer_16 {
            r.push(b.write_submit_to_command_buffer());
        } else {
            let b = self.index_buffer_32.as_ref().unwrap();
            r.push(b.write_submit_to_command_buffer());
        }
        r.push(self.vertex_buffer.write_submit_to_command_buffer());
        if let Some(b) = &self.inst_vertex_buffer {
            r.push(b.write_submit_to_command_buffer());
        }
        r
    }

    /// What the model contributes to a frame: refused while the vertex or the index buffer
    /// is not created; otherwise the buffers to bind, the index type, the number of indices
    /// written last, and the number of instances written last (one for a model without an
    /// instance buffer). The counts are kept modulo 2^32.
    pub fn create_frame_render_info(&self, is_static: bool, is_opaque: bool) -> (r: Result<
        ModelDrawInfo,
        ModelError,
    >)
        requires
            self.wf(),
            self.vertex_state().buffer is Some && self.index_state().buffer is Some
                ==> (self.instance_state() matches Some(s) ==> s.buffer is Some),
        ensures
            self.vertex_state().buffer is None || self.index_state().buffer is None <==> r is Err,
            r matches Err(e) ==> e == ModelError::NotCreated,
            r matches Ok(info) ==> info == (ModelDrawInfo {
                is_static,
                is_opaque,
                vertex_buffer: self.vertex_state().buffer.unwrap(),
                inst_vertex_buffer: match self.instance_state() {
                    Some(s) => s.buffer,
                    None => None,
                },
                index_buffer: self.index_state().buffer.unwrap(),
                index_type: self.index_type_spec(),
                element_count: (self.index_state().curr_element_count as int % 0x1_0000_0000) as u32,
                instance_count: match self.instance_state() {
                    Some(s) => (s.curr_element_count as int % 0x1_0000_0000) as u32,
                    None => 1,
                },
            }),
    {
        let vertex_buffer = match self.vertex_buffer.raw_buffer() {
            Some(b) => b,
            None => return Err(ModelError::NotCreated),
        };
        let index_count: usize;
        let index_buffer: u64;
        if let Some(b) = &self.index_buffer_16 {
            index_count = b.used_element_count();
            index_buffer = match b.raw_buffer() {
                Some(raw) => raw,
                None => return Err(ModelError::NotCreated),
            };
        } else {
            let b = self.index_buffer_32.as_ref().unwrap();
            index_count = b.used_element_count();
            index_buffer = match b.raw_buffer() {
                Some(raw) => raw,
                None => return Err(ModelError::NotCreated),
            };
        }
        let mut instance_count: u32 = 1;
        let mut inst_vertex_buffer: Option<u64> = None;
        if let Some(b) = &self.inst_vertex_buffer {
            instance_count = (b.used_element_count() as u64 % 0x1_0000_0000u64) as u32;
            inst_vertex_buffer = Some(b.raw_buffer().unwrap());
        }
        Ok(
            ModelDrawInfo {
                is_static,
                is_opaque,
                vertex_buffer,
                inst_vertex_buffer,
                index_buffer,
                index_type: self.index_type,
                element_count: (index_count as u64 % 0x1_0000_0000u64) as u32,
                instance_count,
            },
        )
    }

    /// Gives up the Vulkan objects of all the model's buffers: the index buffer's, the
    /// vertex buffer's, then the instance buffer's.
    pub fn destroy(&mut self) -> (r: ModelRelease)
        requires
            old(self).wf(),
        ensures
            final(self).wf(),
            final(self).uses_16_bit_indices() == old(self).uses_16_bit_indices(),
            final(self).index_type_spec() == old(self).index_type_spec(),
            final(self).requires_submit() == old(self).requires_submit(),
            r.index == release_of(old(self).index_state()),
            r.vertex == release_of(old(self).vertex_state()),
            r.instance == match old(self).instance_state() {
                Some(s) => Some(release_of(s)),
                None => None::<BufferRelease>,
            },
            final(self).index_state() == destroyed(old(self).index_state()),
            final(self).vertex_state() == destroyed(old(self).vertex_state()),
            final(self).instance_state() == match old(self).instance_state() {
                Some(s) => Some(destroyed(s)),
                None => None::<BufferState>,
            },
    {
        let index: BufferRelease;
        if self.index_buffer_16.is_some() {
            let mut b = self.index_buffer_16.take().unwrap();
            index = b.destroy();
            self.index_buffer_16 = Some(b);
        } else {
            let mut b = self.index_buffer_32.take().unwrap();
            index = b.destroy();
            self.index_buffer_32 = Some(b);
        }
        let vertex = self.vertex_buffer.destroy();
        let instance: Option<BufferRelease>;
        if self.inst_vertex_buffer.is_some() {
            let mut b = self.inst_vertex_buffer.take().unwrap();
            instance = Some(b.destroy());
            self.inst_vertex_buffer = Some(b);
        } else {
            instance = None;
        }
        ModelRelease { index, vertex, instance }
    }
}

} // verus!
