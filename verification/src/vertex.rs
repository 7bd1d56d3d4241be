//! Vertex input layouts: the attribute and binding descriptions of the vertex types that
//! shaders take, built attribute by attribute.
use vstd::prelude::*;
use crate::vulkan::{
    FORMAT_R32G32B32A32_SFLOAT, FORMAT_R32G32B32A32_SINT, FORMAT_R32G32B32A32_UINT,
    FORMAT_R32G32B32_SFLOAT, FORMAT_R32G32B32_SINT, FORMAT_R32G32B32_UINT, FORMAT_R32G32_SFLOAT,
    FORMAT_R32G32_SINT, FORMAT_R32G32_UINT, FORMAT_R32_SFLOAT, FORMAT_R32_SINT, FORMAT_R32_UINT,
    VERTEX_INPUT_RATE_INSTANCE, VERTEX_INPUT_RATE_VERTEX,
};

verus! {

/// The types a vertex attribute can have: 32-bit scalars, vectors of one to four of
/// them, and 4x4 matrices of 32-bit floats.
#[derive(Clone, Copy, Debug, PartialEq, Eq, Structural)]
pub enum VertexAttribType {
    Float,
    Int,
    UInt,
    Vec1,
    IVec1,
    UVec1,
    Vec2,
    UVec2,
    IVec2,
    Vec3,
    IVec3,
    UVec3,
    Vec4,
    IVec4,
    UVec4,
    Mat4,
}

/// The size of a value of the type, in bytes.
pub open spec fn struct_size(t: VertexAttribType) -> nat {
    match t {
        VertexAttribType::Float | VertexAttribType::Int | VertexAttribType::UInt
        | VertexAttribType::Vec1 | VertexAttribType::IVec1 | VertexAttribType::UVec1 => 4,
        VertexAttribType::Vec2 | VertexAttribType::UVec2 | VertexAttribType::IVec2 => 8,
        VertexAttribType::Vec3 | VertexAttribType::IVec3 | VertexAttribType::UVec3 => 12,
        VertexAttribType::Vec4 | VertexAttribType::IVec4 | VertexAttribType::UVec4 => 16,
        VertexAttribType::Mat4 => 64,
    }
}

/// The format of one attribute location of the type.
pub open spec fn format_of(t: VertexAttribType) -> i32 {
    match t {
        VertexAttribType::Float | VertexAttribType::Vec1 => FORMAT_R32_SFLOAT,
        VertexAttribType::Int | VertexAttribType::IVec1 => FORMAT_R32_SINT,
        VertexAttribType::UInt | VertexAttribType::UVec1 => FORMAT_R32_UINT,
        VertexAttribType::Vec2 => FORMAT_R32G32_SFLOAT,
        VertexAttribType::UVec2 => FORMAT_R32G32_UINT,
        VertexAttribType::IVec2 => FORMAT_R32G32_SINT,
        VertexAttribType::Vec3 => FORMAT_R32G32B32_SFLOAT,
        VertexAttribType::IVec3 => FORMAT_R32G32B32_SINT,
        VertexAttribType::UVec3 => FORMAT_R32G32B32_UINT,
        VertexAttribType::Vec4 | VertexAttribType::Mat4 => FORMAT_R32G32B32A32_SFLOAT,
        VertexAttribType::IVec4 => FORMAT_R32G32B32A32_SINT,
        VertexAttribType::UVec4 => FORMAT_R32G32B32A32_UINT,
    }
}

/// The number of attribute locations the type takes: one per 16 bytes, rounded up.
pub open spec fn repeat_of(t: VertexAttribType) -> nat {
    ((struct_size(t) + 15) / 16) as nat
}

/// The distance between the offsets of consecutive locations of the type: a column of a
/// matrix, otherwise the whole value.
pub open spec fn step_of(t: VertexAttribType) -> nat {
    match t {
        VertexAttribType::Mat4 => 16,
        _ => struct_size(t),
    }
}

/// The kind of number a component holds.
#[derive(Clone, Copy, Debug, PartialEq, Eq, Structural)]
pub enum ScalarKind {
    Float,
    SignedInt,
    UnsignedInt,
}

/// The kind of number each component of an attribute type holds.
pub open spec fn scalar_kind_of(t: VertexAttribType) -> ScalarKind {
    match t {
        VertexAttribType::Float | VertexAttribType::Vec1 | VertexAttribType::Vec2
        | VertexAttribType::Vec3 | VertexAttribType::Vec4 | VertexAttribType::Mat4 => ScalarKind::Float,
        VertexAttribType::Int | VertexAttribType::IVec1 | VertexAttribType::IVec2
        | VertexAttribType::IVec3 | VertexAttribType::IVec4 => ScalarKind::SignedInt,
        VertexAttribType::UInt | VertexAttribType::UVec1 | VertexAttribType::UVec2
        | VertexAttribType::UVec3 | VertexAttribType::UVec4 => ScalarKind::UnsignedInt,
    }
}

/// What a format with 32-bit components holds, as Vulkan defines it: how many components
/// and of which kind; none for other formats.
pub open spec fn format_components(format: i32) -> Option<(nat, ScalarKind)> {
    if format == FORMAT_R32_SFLOAT {
        Some((1, ScalarKind::Float))
    } else if format == FORMAT_R32G32_SFLOAT {
        Some((2, ScalarKind::Float))
    } else if format == FORMAT_R32G32B32_SFLOAT {
        Some((3, ScalarKind::Float))
    } else if format == FORMAT_R32G32B32A32_SFLOAT {
        Some((4, ScalarKind::Float))
    } else if format == FORMAT_R32_SINT {
        Some((1, ScalarKind::SignedInt))
    } else if format == FORMAT_R32G32_SINT {
        Some((2, ScalarKind::SignedInt))
    } else if format == FORMAT_R32G32B32_SINT {
        Some((3, ScalarKind::SignedInt))
    } else if format == FORMAT_R32G32B32A32_SINT {
        Some((4, ScalarKind::SignedInt))
    } else if format == FORMAT_R32_UINT {
        Some((1, ScalarKind::UnsignedInt))
    } else if format == FORMAT_R32G32_UINT {
        Some((2, ScalarKind::UnsignedInt))
    } else if format == FORMAT_R32G32B32_UINT {
        Some((3, ScalarKind::UnsignedInt))
    } else if format == FORMAT_R32G32B32A32_UINT {
        Some((4, ScalarKind::UnsignedInt))
    } else {
        None
    }
}

/// Law: the format of an attribute type reads exactly what one location of the type
/// holds: 32-bit components of the type's kind, as many bytes as the step between its
/// locations (a whole vector, or one four-float column of a matrix), and never more than
/// the 16 bytes a location takes.
pub proof fn lemma_format_matches_location(t: VertexAttribType)
    ensures
        format_components(format_of(t)) matches Some((count, kind)) && 4 * count == step_of(t)
            && kind == scalar_kind_of(t),
        step_of(t) <= 16,
        repeat_of(t) * step_of(t) == struct_size(t),
{
}

impl VertexAttribType {
    /// The size of a value of this type, in bytes.
    pub fn vertex_struct_size(&self) -> (r: usize)
        ensures
            r == struct_size(*self),
    {
        match self {
            VertexAttribType::Float | VertexAttribType::Int | VertexAttribType::UInt
            | VertexAttribType::Vec1 | VertexAttribType::IVec1 | VertexAttribType::UVec1 => 4,
            VertexAttribType::Vec2 | VertexAttribType::UVec2 | VertexAttribType::IVec2 => 8,
            VertexAttribType::Vec3 | VertexAttribType::IVec3 | VertexAttribType::UVec3 => 12,
            VertexAttribType::Vec4 | VertexAttribType::IVec4 | VertexAttribType::UVec4 => 16,
            VertexAttribType::Mat4 => 64,
        }
    }

    /// The format of one attribute location of this type.
    pub fn vertex_format(&self) -> (r: i32)
        ensures
            r == format_of(*self),
    {
        match self {
            VertexAttribType::Float | VertexAttribType::Vec1 => FORMAT_R32_SFLOAT,
            VertexAttribType::Int | VertexAttribType::IVec1 => FORMAT_R32_SINT,
            VertexAttribType::UInt | VertexAttribType::UVec1 => FORMAT_R32_UINT,
            VertexAttribType::Vec2 => FORMAT_R32G32_SFLOAT,
            VertexAttribType::UVec2 => FORMAT_R32G32_UINT,
            VertexAttribType::IVec2 => FORMAT_R32G32_SINT,
            VertexAttribType::Vec3 => FORMAT_R32G32B32_SFLOAT,
            VertexAttribType::IVec3 => FORMAT_R32G32B32_SINT,
            VertexAttribType::UVec3 => FORMAT_R32G32B32_UINT,
            VertexAttribType::Vec4 | VertexAttribType::Mat4 => FORMAT_R32G32B32A32_SFLOAT,
            VertexAttribType::IVec4 => FORMAT_R32G32B32A32_SINT,
            VertexAttribType::UVec4 => FORMAT_R32G32B32A32_UINT,
        }
    }

    /// The number of attribute locations this type takes: one per 16 bytes, rounded up.
    pub fn vertex_format_repeat(&self) -> (r: usize)
        ensures
            r == repeat_of(*self),
    {
        (self.vertex_struct_size() + 15) / 16
    }

    /// The distance between consecutive locations, when it is not the whole value.
    pub fn vertex_format_offset(&self) -> (r: Option<usize>)
        ensures
            r == match *self {
                VertexAttribType::Mat4 => Some(16usize),
                _ => None::<usize>,
            },
    {
        match self {
            VertexAttribType::Mat4 => Some(16),
            _ => None,
        }
    }
}

/// One attribute location of a vertex input.
#[derive(Clone, Copy, Debug, PartialEq, Eq, Structural)]
pub struct VertexInputAttributeDescription {
    pub location: u32,
    pub binding: u32,
    pub format: i32,
    pub offset: u32,
}

/// One vertex buffer binding: its stride and whether it advances per vertex or per
/// instance.
#[derive(Clone, Copy, Debug, PartialEq, Eq, Structural)]
pub struct VertexInputBindingDescription {
    pub binding: u32,
    pub stride: u32,
    pub input_rate: i32,
}

/// Builds the attribute and binding descriptions of a vertex type, one attribute at a
/// time; each attribute follows the previous one in memory and in location numbers.
#[derive(Debug)]
pub struct VertexAttributeBuilder {
    attrs: Vec<VertexInputAttributeDescription>,
    bindings: Vec<VertexInputBindingDescription>,
    offset: usize,
    location: usize,
    binding: u32,
    instance: bool,
}

/// The descriptions of one attribute of type `t` at `location` and `offset`.
pub open spec fn attr_descriptions(
    t: VertexAttribType,
    binding: u32,
    location: int,
    offset: int,
) -> Seq<VertexInputAttributeDescription> {
    Seq::new(
        repeat_of(t),
        |k: int|
            VertexInputAttributeDescription {
                location: (location + k) as u32,
                binding,
                format: format_of(t),
                offset: (offset + k * step_of(t)) as u32,
            },
    )
}

/// The bytes one attribute of type `t` takes.
pub open spec fn span_of(t: VertexAttribType) -> nat {
    repeat_of(t) * step_of(t)
}

/// The descriptions of attributes `types`, laid out from `location` and `offset` on.
pub open spec fn layout_descriptions(
    types: Seq<VertexAttribType>,
    binding: u32,
    location: int,
    offset: int,
) -> Seq<VertexInputAttributeDescription>
    decreases types.len(),
{
    if types.len() == 0 {
        Seq::empty()
    } else {
        let t = types.last();
        let before = types.drop_last();
        layout_descriptions(before, binding, location, offset) + attr_descriptions(
            t,
            binding,
            location + locations_of(before),
            offset + size_of_layout(before),
        )
    }
}

/// The locations the attributes take.
pub open spec fn locations_of(types: Seq<VertexAttribType>) -> nat
    decreases types.len(),
{
    if types.len() == 0 {
        0
    } else {
        locations_of(types.drop_last()) + repeat_of(types.last())
    }
}

/// The bytes the attributes take.
pub open spec fn size_of_layout(types: Seq<VertexAttribType>) -> nat
    decreases types.len(),
{
    if types.len() == 0 {
        0
    } else {
        size_of_layout(types.drop_last()) + span_of(types.last())
    }
}

/// The sum of the value sizes of the attributes.
pub open spec fn total_struct_size(types: Seq<VertexAttribType>) -> nat
    decreases types.len(),
{
    if types.len() == 0 {
        0
    } else {
        total_struct_size(types.drop_last()) + struct_size(types.last())
    }
}

impl VertexAttributeBuilder {
    pub closed spec fn attributes(&self) -> Seq<VertexInputAttributeDescription> {
        self.attrs@
    }

    pub closed spec fn bindings(&self) -> Seq<VertexInputBindingDescription> {
        self.bindings@
    }

    pub closed spec fn next_offset(&self) -> nat {
        self.offset as nat
    }

    pub closed spec fn next_location(&self) -> nat {
        self.location as nat
    }

    pub closed spec fn binding(&self) -> u32 {
        self.binding
    }

    pub closed spec fn instance(&self) -> bool {
        self.instance
    }

    /// A builder with no attributes, at binding 0, location 0, offset 0, per vertex.
    pub fn new() -> (r: Self)
        ensures
            r.attributes() == Seq::<VertexInputAttributeDescription>::empty(),
            r.bindings() == Seq::<VertexInputBindingDescription>::empty(),
            r.next_offset() == 0,
            r.next_location() == 0,
            r.binding() == 0,
            !r.instance(),
    {
        VertexAttributeBuilder {
            attrs: Vec::new(),
            bindings: Vec::new(),
            offset: 0,
            location: 0,
            binding: 0,
            instance: false,
        }
    }

    /// Sets the binding the attributes and the binding description refer to.
    pub fn set_binding(&mut self, binding: u32)
        ensures
            final(self).binding() == binding,
            final(self).attributes() == old(self).attributes(),
            final(self).bindings() == old(self).bindings(),
            final(self).next_offset() == old(self).next_offset(),
            final(self).next_location() == old(self).next_location(),
            final(self).instance() == old(self).instance(),
    {
        self.binding = binding;
    }

    /// Sets the location of the first attribute; only before any attribute is added.
    pub fn set_location(&mut self, location: usize)
        requires
            old(self).attributes().len() == 0,
        ensures
            final(self).next_location() == location,
            final(self).binding() == old(self).binding(),
            final(self).attributes() == old(self).attributes(),
            final(self).bindings() == old(self).bindings(),
            final(self).next_offset() == old(self).next_offset(),
            final(self).instance() == old(self).instance(),
    {
        self.location = location;
    }

    /// Sets whether the binding advances per instance rather than per vertex.
    pub fn set_instance(&mut self, instance: bool)
        ensures
            final(self).instance() == instance,
            final(self).binding() == old(self).binding(),
            final(self).attributes() == old(self).attributes(),
            final(self).bindings() == old(self).bindings(),
            final(self).next_offset() == old(self).next_offset(),
            final(self).next_location() == old(self).next_location(),
    {
        self.instance = instance;
    }

    /// Adds an attribute of type `t` at the next location and offset; a matrix takes one
    /// location per column. Only before the bindings are finalized.
    pub fn add_attr(&mut self, t: VertexAttribType)
        requires
            old(self).bindings().len() == 0,
            old(self).next_offset() + span_of(t) <= usize::MAX,
            old(self).next_location() + repeat_of(t) <= usize::MAX,
        ensures
            final(self).attributes() == old(self).attributes() + attr_descriptions(
                t,
                old(self).binding(),
                old(self).next_location() as int,
                old(self).next_offset() as int,
            ),
            final(self).next_offset() == old(self).next_offset() + span_of(t),
            final(self).next_location() == old(self).next_location() + repeat_of(t),
            final(self).binding() == old(self).binding(),
            final(self).bindings() == old(self).bindings(),
            final(self).instance() == old(self).instance(),
    {
        let offset_add = match t.vertex_format_offset() {
            Some(o) => o,
            None => t.vertex_struct_size(),
        };
        let repeat = t.vertex_format_repeat();
        let format = t.vertex_format();
        let ghost old_attrs = self.attrs@;
        let ghost start_offset = self.offset as int;
        let ghost start_location = self.location as int;
        assert(offset_add == step_of(t));
        let mut q: usize = 0;
        while q < repeat
            invariant
                q <= repeat,
                repeat == repeat_of(t),
                offset_add == step_of(t),
                format == format_of(t),
                self.bindings@.len() == 0,
                self.binding == old(self).binding,
                self.instance == old(self).instance,
                self.bindings@ == old(self).bindings@,
                self.offset == start_offset + q * offset_add,
                self.location == start_location + q,
                start_offset == old(self).offset,
                start_location == old(self).location,
                start_offset + repeat * offset_add <= usize::MAX,
                start_location + repeat <= usize::MAX,
                self.attrs@ == old_attrs + attr_descriptions(
                    t,
                    self.binding,
                    start_location,
                    start_offset,
                ).subrange(0, q as int),
                old_attrs == old(self).attrs@,
            decreases repeat - q,
        {
            let attr = VertexInputAttributeDescription {
                location: self.location as u32,
                binding: self.binding,
                format,
                offset: self.offset as u32,
            };
            self.attrs.push(attr);
            proof {
                assert(q * offset_add + offset_add == (q + 1) * offset_add) by (nonlinear_arith);
                assert((q + 1) * offset_add <= repeat * offset_add) by (nonlinear_arith)
                    requires
                        q < repeat,
                ;
                let d = attr_descriptions(t, self.binding, start_location, start_offset);
                assert(d[q as int] == attr);
                assert(d.subrange(0, q + 1) =~= d.subrange(0, q as int).push(attr));
            }
            self.offset = self.offset + offset_add;
            self.location = self.location + 1;
            q = q + 1;
        }
        proof {
            let d = attr_descriptions(t, self.binding, start_location, start_offset);
            assert(d.subrange(0, repeat as int) =~= d);
        }
    }

    /// Adds the binding description once attributes exist: the stride is the next offset,
    /// and the rate is per instance or per vertex. Does nothing if a binding exists or no
    /// attribute was added.
    pub fn finalize_bindings(&mut self)
        ensures
            old(self).bindings().len() == 0 && old(self).attributes().len() > 0 ==> final(self).bindings() == seq![
                VertexInputBindingDescription {
                    binding: old(self).binding(),
                    stride: old(self).next_offset() as u32,
                    input_rate: if old(self).instance() {
                        VERTEX_INPUT_RATE_INSTANCE
                    } else {
                        VERTEX_INPUT_RATE_VERTEX
                    },
                },
            ],
            !(old(self).bindings().len() == 0 && old(self).attributes().len() > 0) ==> final(self).bindings() == old(self).bindings(),
            final(self).attributes() == old(self).attributes(),
            final(self).next_offset() == old(self).next_offset(),
            final(self).next_location() == old(self).next_location(),
            final(self).binding() == old(self).binding(),
            final(self).instance() == old(self).instance(),
    {
        if self.bindings.len() == 0 && self.attrs.len() > 0 {
            let normal_binding = VertexInputBindingDescription {
                binding: self.binding,
                stride: self.offset as u32,
                input_rate: if self.instance {
                    VERTEX_INPUT_RATE_INSTANCE
                } else {
                    VERTEX_INPUT_RATE_VERTEX
                },
            };
            self.bindings.push(normal_binding);
            assert(self.bindings@ =~= seq![normal_binding]);
        }
    }

    /// The binding descriptions.
    pub fn build_bindings(&self) -> (r: &[VertexInputBindingDescription])
        ensures
            r@ == self.bindings(),
    {
        self.bindings.as_slice()
    }

    /// The attribute descriptions.
    pub fn build_attributes(&self) -> (r: &[VertexInputAttributeDescription])
        ensures
            r@ == self.attributes(),
    {
        self.attrs.as_slice()
    }
}

/// Builds the layout of a vertex type: the attributes `types` in order from `location`
/// on, at binding `binding`, per instance or per vertex, with the binding finalized.
pub fn build_vertex_layout(
    binding: u32,
    location: usize,
    instance: bool,
    types: &Vec<VertexAttribType>,
) -> (r: VertexAttributeBuilder)
    requires
        size_of_layout(types@) <= usize::MAX,
        location + locations_of(types@) <= usize::MAX,
    ensures
        r.attributes() == layout_descriptions(types@, binding, location as int, 0),
        r.next_offset() == size_of_layout(types@),
        r.next_location() == location + locations_of(types@),
        r.bindings() == if types@.len() > 0 {
            seq![
                VertexInputBindingDescription {
                    binding,
                    stride: size_of_layout(types@) as u32,
                    input_rate: if instance {
                        VERTEX_INPUT_RATE_INSTANCE
                    } else {
                        VERTEX_INPUT_RATE_VERTEX
                    },
                },
            ]
        } else {
            Seq::<VertexInputBindingDescription>::empty()
        },
{
    let mut builder = VertexAttributeBuilder::new();
    builder.set_binding(binding);
    builder.set_location(location);
    builder.set_instance(instance);
    let mut i: usize = 0;
    while i < types.len()
        invariant
            i <= types@.len(),
            size_of_layout(types@) <= usize::MAX,
            location + locations_of(types@) <= usize::MAX,
            builder.bindings().len() == 0,
            builder.binding() == binding,
            builder.instance() == instance,
            builder.attributes() == layout_descriptions(types@.subrange(0, i as int), binding, location as int, 0),
            builder.next_offset() == size_of_layout(types@.subrange(0, i as int)),
            builder.next_location() == location + locations_of(types@.subrange(0, i as int)),
            builder.attributes().len() == 0 <==> locations_of(types@.subrange(0, i as int)) == 0,
        decreases types@.len() - i,
    {
        let t = types[i];
        proof {
            let pre = types@.subrange(0, i as int);
            let next = types@.subrange(0, i + 1);
            assert(next.drop_last() =~= pre);
            assert(next.last() == t);
            lemma_layout_prefix_bounded(types@, i as int + 1);
        }
        builder.add_attr(t);
        proof {
            let next = types@.subrange(0, i + 1);
            assert(next.drop_last() =~= types@.subrange(0, i as int));
        }
        i = i + 1;
    }
    assert(types@.subrange(0, types@.len() as int) =~= types@);
    proof {
        lemma_every_type_takes_a_location(types@);
    }
    builder.finalize_bindings();
    builder
}

/// The sizes and locations of a prefix of the attributes are at most those of all of them.
proof fn lemma_layout_prefix_bounded(types: Seq<VertexAttribType>, n: int)
    requires
        0 <= n <= types.len(),
    ensures
        size_of_layout(types.subrange(0, n)) <= size_of_layout(types),
        locations_of(types.subrange(0, n)) <= locations_of(types),
    decreases types.len() - n,
{
    if n < types.len() {
        lemma_layout_prefix_bounded(types, n + 1);
        assert(types.subrange(0, n + 1).drop_last() =~= types.subrange(0, n));
    } else {
        assert(types.subrange(0, n) =~= types);
    }
}

/// Each attribute takes at most 64 bytes and 4 locations.
proof fn lemma_layout_bounds(types: Seq<VertexAttribType>)
    ensures
        size_of_layout(types) <= 64 * types.len(),
        locations_of(types) <= 4 * types.len(),
    decreases types.len(),
{
    if types.len() > 0 {
        lemma_layout_bounds(types.drop_last());
    }
}

/// Every attribute type takes at least one location.
proof fn lemma_every_type_takes_a_location(types: Seq<VertexAttribType>)
    ensures
        types.len() > 0 <==> locations_of(types) > 0,
    decreases types.len(),
{
    if types.len() > 0 {
        lemma_every_type_takes_a_location(types.drop_last());
    }
}

/// Law: attributes are packed without gaps, so the stride of a vertex layout is the sum
/// of the sizes of its attributes.
pub proof fn lemma_stride_is_total_size(types: Seq<VertexAttribType>)
    ensures
        size_of_layout(types) == total_struct_size(types),
    decreases types.len(),
{
    if types.len() > 0 {
        lemma_stride_is_total_size(types.drop_last());
    }
}

/// Law: attribute `k` of a layout sits at location `location + k`; the locations are
/// numbered without gaps.
pub proof fn lemma_layout_locations_consecutive(
    types: Seq<VertexAttribType>,
    binding: u32,
    location: int,
    offset: int,
)
    ensures
        layout_descriptions(types, binding, location, offset).len() == locations_of(types),
        forall|k: int|
            0 <= k < locations_of(types) ==> #[trigger] layout_descriptions(
                types,
                binding,
                location,
                offset,
            )[k].location == (location + k) as u32,
    decreases types.len(),
{
    if types.len() > 0 {
        lemma_layout_locations_consecutive(types.drop_last(), binding, location, offset);
        let before = layout_descriptions(types.drop_last(), binding, location, offset);
        let last = attr_descriptions(
            types.last(),
            binding,
            location + locations_of(types.drop_last()),
            offset + size_of_layout(types.drop_last()),
        );
        assert forall|k: int| 0 <= k < locations_of(types) implies #[trigger] layout_descriptions(
            types,
            binding,
            location,
            offset,
        )[k].location == (location + k) as u32 by {
            if k < before.len() {
                assert((before + last)[k] == before[k]);
            } else {
                assert((before + last)[k] == last[k - before.len()]);
            }
        }
    }
}

/// The vertex types the engine's shaders take.
#[derive(Clone, Copy, Debug, PartialEq, Eq, Structural)]
pub enum VertexType {
    /// Position, normal and color (three floats each) and texture coordinates (two).
    Simple,
    /// Screen position and texture coordinates (two floats each), for postprocessing.
    MotionBlur,
    /// Screen position (two floats) and color (three floats).
    StaticScreenSpace,
    /// No attributes; the per-instance binding 1 of models drawn without instance data.
    Empty,
}

/// The attribute types of a vertex type, in order.
pub open spec fn vertex_attribute_types(v: VertexType) -> Seq<VertexAttribType> {
    match v {
        VertexType::Simple => seq![
            VertexAttribType::Vec3,
            VertexAttribType::Vec3,
            VertexAttribType::Vec3,
            VertexAttribType::Vec2,
        ],
        VertexType::MotionBlur => seq![VertexAttribType::Vec2, VertexAttribType::Vec2],
        VertexType::StaticScreenSpace => seq![VertexAttribType::Vec2, VertexAttribType::Vec3],
        VertexType::Empty => seq![],
    }
}

/// The binding, first location and rate of a vertex type: binding 1 per instance for
/// the empty type, binding 0 per vertex otherwise, both from location 0.
pub open spec fn vertex_binding(v: VertexType) -> (u32, usize, bool) {
    match v {
        VertexType::Empty => (1, 0, true),
        _ => (0, 0, false),
    }
}

impl VertexType {
    /// The attribute types of this vertex type, in order.
    pub fn attribute_types(&self) -> (r: Vec<VertexAttribType>)
        ensures
            r@ == vertex_attribute_types(*self),
    {
        let mut v: Vec<VertexAttribType> = Vec::new();
        match self {
            VertexType::Simple => {
                v.push(VertexAttribType::Vec3);
                v.push(VertexAttribType::Vec3);
                v.push(VertexAttribType::Vec3);
                v.push(VertexAttribType::Vec2);
            },
            VertexType::MotionBlur => {
                v.push(VertexAttribType::Vec2);
                v.push(VertexAttribType::Vec2);
            },
            VertexType::StaticScreenSpace => {
                v.push(VertexAttribType::Vec2);
                v.push(VertexAttribType::Vec3);
            },
            VertexType::Empty => {},
        }
        assert(v@ =~= vertex_attribute_types(*self));
        v
    }

    /// The layout of this vertex type (see [`build_vertex_layout`]).
    pub fn layout(&self) -> (r: VertexAttributeBuilder)
        ensures
            ({
                let (binding, location, instance) = vertex_binding(*self);
                let types = vertex_attribute_types(*self);
                &&& r.attributes() == layout_descriptions(types, binding, location as int, 0)
                &&& r.bindings() == if types.len() > 0 {
                    seq![
                        VertexInputBindingDescription {
                            binding,
                            stride: size_of_layout(types) as u32,
                            input_rate: if instance {
                                VERTEX_INPUT_RATE_INSTANCE
                            } else {
                                VERTEX_INPUT_RATE_VERTEX
                            },
                        },
                    ]
                } else {
                    Seq::<VertexInputBindingDescription>::empty()
                }
            }),
    {
        let types = self.attribute_types();
        proof {
            lemma_layout_bounds(vertex_attribute_types(*self));
        }
        match self {
            VertexType::Empty => build_vertex_layout(1, 0, true, &types),
            _ => build_vertex_layout(0, 0, false, &types),
        }
    }
}

} // verus!
