//! Choices about the physical and logical device: queue families, requested layers and
//! extensions, the graphics card, and the memory type of an allocation.
use vstd::prelude::*;
use crate::dependency::string_views;
use crate::swapchain::GraphicsCardSuitabilityError;
use crate::vulkan::QUEUE_GRAPHICS;

verus! {

/// The queue families used for graphics and for presentation, when found.
#[derive(Clone, Copy, Debug, PartialEq, Eq, Structural)]
pub struct QueueFamilyIndices {
    pub graphics: Option<u32>,
    pub present: Option<u32>,
}

/// The first index `i` at or after `from` for which `p(i)` holds, if any.
pub open spec fn first_index_from(len: int, p: spec_fn(int) -> bool, from: int) -> Option<int>
    decreases len - from,
{
    if from < 0 || from >= len {
        None
    } else if p(from) {
        Some(from)
    } else {
        first_index_from(len, p, from + 1)
    }
}

/// What the first index says: it satisfies `p`, no index before it does, and when there
/// is none, no index does.
pub proof fn lemma_first_index_from(len: int, p: spec_fn(int) -> bool, from: int)
    requires
        0 <= from,
    ensures
        match first_index_from(len, p, from) {
            Some(i) => from <= i < len && p(i) && forall|j: int| from <= j < i ==> !#[trigger] p(j),
            None => forall|j: int| from <= j < len ==> !#[trigger] p(j),
        },
    decreases len - from,
{
    if from < len && !p(from) {
        lemma_first_index_from(len, p, from + 1);
    }
}

/// The first index below `len` for which `p` holds, if any.
pub open spec fn first_index(len: int, p: spec_fn(int) -> bool) -> Option<int> {
    first_index_from(len, p, 0)
}

/// The family supports graphics operations.
pub open spec fn supports_graphics(flags: u32) -> bool {
    flags & QUEUE_GRAPHICS != 0
}

/// Families that support graphics operations.
pub open spec fn graphics_family(flags: Seq<u32>) -> spec_fn(int) -> bool {
    |i: int| supports_graphics(flags[i])
}

/// Families whose presentation question was answered.
pub open spec fn answered_family(support: Seq<Option<bool>>) -> spec_fn(int) -> bool {
    |i: int| support[i] is Some
}

/// The index as a queue family number.
pub open spec fn as_family(i: Option<int>) -> Option<u32> {
    match i {
        Some(i) => Some(i as u32),
        None => None,
    }
}

impl QueueFamilyIndices {
    /// Finds the queue families of a physical device from the flags of each family and,
    /// when there is a surface, the outcome of asking whether each family can present to
    /// it (`None` where the question failed).
    ///
    /// The graphics family is the first whose flags include graphics. The present family
    /// is the first whose question was answered at all, whatever the answer.
    pub fn get(queue_flags: &Vec<u32>, surface_support: Option<&Vec<Option<bool>>>) -> (r: Self)
        requires
            queue_flags@.len() <= u32::MAX + 1,
            surface_support matches Some(s) ==> s@.len() <= u32::MAX + 1,
        ensures
            r.graphics == as_family(first_index(queue_flags@.len() as int, graphics_family(queue_flags@))),
            r.present == match surface_support {
                Some(s) => as_family(first_index(s@.len() as int, answered_family(s@))),
                None => None,
            },
    {
        let graphics = first_graphics_family(queue_flags);
        let present = match surface_support {
            Some(s) => first_answered_family(s),
            None => None,
        };
        QueueFamilyIndices { graphics, present }
    }
}

/// The first family whose flags include graphics.
fn first_graphics_family(queue_flags: &Vec<u32>) -> (r: Option<u32>)
    requires
        queue_flags@.len() <= u32::MAX + 1,
    ensures
        r == as_family(first_index(queue_flags@.len() as int, graphics_family(queue_flags@))),
{
    let ghost gp = graphics_family(queue_flags@);
    let mut i: usize = 0;
    while i < queue_flags.len()
        invariant
            i <= queue_flags@.len() <= u32::MAX + 1,
            gp == graphics_family(queue_flags@),
            first_index(queue_flags@.len() as int, gp) == first_index_from(
                queue_flags@.len() as int,
                gp,
                i as int,
            ),
        decreases queue_flags@.len() - i,
    {
        if queue_flags[i] & QUEUE_GRAPHICS != 0 {
            assert(gp(i as int));
            return Some(i as u32);
        }
        i = i + 1;
    }
    None
}

/// The first family whose presentation question was answered.
fn first_answered_family(support: &Vec<Option<bool>>) -> (r: Option<u32>)
    requires
        support@.len() <= u32::MAX + 1,
    ensures
        r == as_family(first_index(support@.len() as int, answered_family(support@))),
{
    let ghost sp = answered_family(support@);
    let mut j: usize = 0;
    while j < support.len()
        invariant
            j <= support@.len() <= u32::MAX + 1,
            sp == answered_family(support@),
            first_index(support@.len() as int, sp) == first_index_from(
                support@.len() as int,
                sp,
                j as int,
            ),
        decreases support@.len() - j,
    {
        if support[j].is_some() {
            assert(sp(j as int));
            return Some(j as u32);
        }
        j = j + 1;
    }
    None
}

/// Checks that a graphics family and a present family were found, and hands them back.
pub fn check_queue_families(indices: &QueueFamilyIndices) -> (r: Result<
    (u32, u32),
    GraphicsCardSuitabilityError,
>)
    ensures
        match (indices.graphics, indices.present) {
            (None, _) => r == Err::<(u32, u32), GraphicsCardSuitabilityError>(
                GraphicsCardSuitabilityError::NoGraphicsQueueFamily,
            ),
            (Some(_), None) => r == Err::<(u32, u32), GraphicsCardSuitabilityError>(
                GraphicsCardSuitabilityError::NoPresentQueueFamily,
            ),
            (Some(g), Some(p)) => r == Ok::<(u32, u32), GraphicsCardSuitabilityError>((g, p)),
        },
{
    match indices.graphics {
        None => Err(GraphicsCardSuitabilityError::NoGraphicsQueueFamily),
        Some(g) => match indices.present {
            None => Err(GraphicsCardSuitabilityError::NoPresentQueueFamily),
            Some(p) => Ok((g, p)),
        },
    }
}

/// The distinct queue families to create queues for: the graphics family, then the
/// present family when it differs.
pub fn unique_queue_families(graphics_queue_family: u32, present_queue_family: u32) -> (r: Vec<u32>)
    ensures
        r@.no_duplicates(),
        r@.to_set() == set![graphics_queue_family, present_queue_family],
        graphics_queue_family == present_queue_family ==> r@ == seq![graphics_queue_family],
        graphics_queue_family != present_queue_family ==> r@ == seq![
            graphics_queue_family,
            present_queue_family,
        ],
{
    let mut families: Vec<u32> = Vec::new();
    families.push(graphics_queue_family);
    if present_queue_family != graphics_queue_family {
        families.push(present_queue_family);
    }
    proof {
        if graphics_queue_family == present_queue_family {
            assert(families@ =~= seq![graphics_queue_family]);
        } else {
            assert(families@ =~= seq![graphics_queue_family, present_queue_family]);
        }
        assert forall|x: u32| families@.to_set().contains(x) <==> set![
            graphics_queue_family,
            present_queue_family,
        ].contains(x) by {
            if x == graphics_queue_family {
                assert(families@[0] == x);
            }
            if x == present_queue_family {
                assert(families@[families@.len() - 1] == x);
            }
        }
        assert(families@.to_set() =~= set![graphics_queue_family, present_queue_family]);
    }
    families
}

/// A requested layer or extension that is not available.
#[derive(Debug)]
pub enum MissingSupport {
    Layer(String),
    Extension(String),
}

/// The first position of a requested name that is not among the available ones.
pub open spec fn first_missing(requested: Seq<Seq<char>>, available: Seq<Seq<char>>) -> Option<int> {
    first_index(requested.len() as int, unavailable_name(requested, available))
}

/// Requested names that are not available.
pub open spec fn unavailable_name(requested: Seq<Seq<char>>, available: Seq<Seq<char>>) -> spec_fn(int) -> bool {
    |i: int| !available.contains(requested[i])
}

/// The position of the first requested name that is not available, if any.
fn first_unavailable(requested: &Vec<String>, available: &Vec<String>) -> (r: Option<usize>)
    ensures
        r matches Some(i) ==> i < requested@.len() && first_missing(
            string_views(requested@),
            string_views(available@),
        ) == Some(i as int),
        r is None ==> first_missing(string_views(requested@), string_views(available@)) is None,
{
    let ghost req = string_views(requested@);
    let ghost avail = string_views(available@);
    let ghost p = unavailable_name(req, avail);
    let mut i: usize = 0;
    while i < requested.len()
        invariant
            i <= requested@.len(),
            req == string_views(requested@),
            avail == string_views(available@),
            p == unavailable_name(req, avail),
            first_index(req.len() as int, p) == first_index_from(req.len() as int, p, i as int),
        decreases requested@.len() - i,
    {
        let mut found = false;
        let mut j: usize = 0;
        while j < available.len()
            invariant
                j <= available@.len(),
                i < requested@.len(),
                avail == string_views(available@),
                req == string_views(requested@),
                found == exists|k: int| 0 <= k < j && avail[k] == req[i as int],
            decreases available@.len() - j,
        {
            assert(avail[j as int] == available@[j as int]@);
            assert(req[i as int] == requested@[i as int]@);
            if available[j].eq(&requested[i]) {
                found = true;
            }
            j = j + 1;
        }
        proof {
            if found {
                let k = choose|k: int| 0 <= k < available@.len() && avail[k] == req[i as int];
                assert(avail.contains(req[i as int]));
            } else {
                assert(!avail.contains(req[i as int])) by {
                    if avail.contains(req[i as int]) {
                        let k = choose|k: int| 0 <= k < avail.len() && avail[k] == req[i as int];
                        assert(avail[k] == req[i as int]);
                    }
                }
            }
        }
        if !found {
            assert(p(i as int));
            return Some(i);
        }
        i = i + 1;
    }
    None
}

/// Checks that every requested layer and then every requested extension is available;
/// the first one missing is the error.
pub fn check_layers_and_extensions(
    requested_layers: &Vec<String>,
    available_layers: &Vec<String>,
    requested_extensions: &Vec<String>,
    available_extensions: &Vec<String>,
) -> (r: Result<(), MissingSupport>)
    ensures
        match first_missing(string_views(requested_layers@), string_views(available_layers@)) {
            Some(i) => r matches Err(MissingSupport::Layer(name)) && name@ == requested_layers@[i]@,
            None => match first_missing(
                string_views(requested_extensions@),
                string_views(available_extensions@),
            ) {
                Some(i) => r matches Err(MissingSupport::Extension(name)) && name@
                    == requested_extensions@[i]@,
                None => r is Ok,
            },
        },
{
    match first_unavailable(requested_layers, available_layers) {
        Some(i) => {
            return Err(MissingSupport::Layer(requested_layers[i].clone()));
        },
        None => {},
    }
    match first_unavailable(requested_extensions, available_extensions) {
        Some(i) => Err(MissingSupport::Extension(requested_extensions[i].clone())),
        None => Ok(()),
    }
}

/// Cards that passed the checks.
pub open spec fn passed(suitable: Seq<bool>) -> spec_fn(int) -> bool {
    |i: int| suitable[i]
}

/// Picks the first graphics card that passed the checks.
pub fn select_graphics_card(suitable: &Vec<bool>) -> (r: Result<usize, GraphicsCardSuitabilityError>)
    ensures
        match first_index(suitable@.len() as int, passed(suitable@)) {
            Some(i) => r == Ok::<usize, GraphicsCardSuitabilityError>(i as usize),
            None => r == Err::<usize, GraphicsCardSuitabilityError>(
                GraphicsCardSuitabilityError::NoSuitableGraphicsCard,
            ),
        },
{
    let ghost p = passed(suitable@);
    let mut i: usize = 0;
    while i < suitable.len()
        invariant
            i <= suitable@.len(),
            p == passed(suitable@),
            first_index(suitable@.len() as int, p) == first_index_from(
                suitable@.len() as int,
                p,
                i as int,
            ),
        decreases suitable@.len() - i,
    {
        if suitable[i] {
            assert(p(i as int));
            return Ok(i);
        }
        i = i + 1;
    }
    Err(GraphicsCardSuitabilityError::NoSuitableGraphicsCard)
}

/// One kind of device memory: its property flags and its heap.
#[derive(Clone, Copy, Debug, PartialEq, Eq, Structural)]
pub struct MemoryType {
    pub property_flags: u32,
    pub heap_index: u32,
}

/// The memory types of a physical device; only the first `memory_type_count` are valid.
#[derive(Debug)]
pub struct MemoryProperties {
    pub memory_type_count: u32,
    pub memory_types: Vec<MemoryType>,
}

/// What an allocation needs: size, alignment, and a bit per allowed memory type.
#[derive(Clone, Copy, Debug, PartialEq, Eq, Structural)]
pub struct MemoryRequirements {
    pub size: u64,
    pub alignment: u64,
    pub memory_type_bits: u32,
}

/// No memory type fits an allocation.
#[derive(Clone, Copy, Debug, PartialEq, Eq, Structural)]
pub struct NoSuitableMemoryType;

/// Memory type `i` is allowed by the requirements and has all the wanted properties.
pub open spec fn memory_type_suitable(
    memory: MemoryProperties,
    properties: u32,
    requirements: MemoryRequirements,
    i: int,
) -> bool {
    &&& requirements.memory_type_bits & (1u32 << (i as u32)) != 0
    &&& memory.memory_types@[i].property_flags & properties == properties
}

/// Memory types that fit the allocation.
pub open spec fn fitting_type(memory: MemoryProperties, properties: u32, requirements: MemoryRequirements) -> spec_fn(int) -> bool {
    |i: int| memory_type_suitable(memory, properties, requirements, i)
}

/// The memory type chosen for an allocation is a valid one, is allowed by the
/// allocation (its bit in `memory_type_bits` is set) and has every wanted property
/// (its flags contain all bits of `properties`); no valid type before it is both allowed
/// and has every wanted property. When none is chosen, no valid type is both.
pub proof fn lemma_memory_type_choice(
    memory: MemoryProperties,
    properties: u32,
    requirements: MemoryRequirements,
)
    ensures
        match first_index(
            memory.memory_type_count as int,
            fitting_type(memory, properties, requirements),
        ) {
            Some(i) => {
                let chosen_flags = memory.memory_types@[i].property_flags;
                &&& 0 <= i < memory.memory_type_count
                &&& requirements.memory_type_bits & (1u32 << (i as u32)) != 0
                &&& chosen_flags & properties == properties
                &&& forall|j: int|
                    0 <= j < i ==> !(requirements.memory_type_bits & (1u32 << (j as u32)) != 0
                        && #[trigger] memory.memory_types@[j].property_flags & properties
                        == properties)
            },
            None => forall|j: int|
                0 <= j < memory.memory_type_count ==> !(requirements.memory_type_bits & (1u32 << (
                j as u32)) != 0 && #[trigger] memory.memory_types@[j].property_flags & properties
                    == properties),
        },
{
    let p = fitting_type(memory, properties, requirements);
    lemma_first_index_from(memory.memory_type_count as int, p, 0);
    match first_index(memory.memory_type_count as int, p) {
        Some(i) => {
            assert forall|j: int| 0 <= j < i implies !(requirements.memory_type_bits & (1u32 << (
            j as u32)) != 0 && #[trigger] memory.memory_types@[j].property_flags & properties
                == properties) by {
                assert(!p(j));
            }
        },
        None => {
            assert forall|j: int| 0 <= j < memory.memory_type_count implies !(
            requirements.memory_type_bits & (1u32 << (j as u32)) != 0
                && #[trigger] memory.memory_types@[j].property_flags & properties == properties) by {
                assert(!p(j));
            }
        },
    }
}

/// Finds the first memory type, among the valid ones, that the requirements allow and
/// that has all of `properties`.
pub fn get_memory_type_index(
    memory: &MemoryProperties,
    properties: u32,
    requirements: MemoryRequirements,
) -> (r: Result<u32, NoSuitableMemoryType>)
    requires
        memory.memory_type_count <= 32,
        memory.memory_type_count <= memory.memory_types@.len(),
    ensures
        match first_index(memory.memory_type_count as int, fitting_type(*memory, properties, requirements)) {
            Some(i) => r == Ok::<u32, NoSuitableMemoryType>(i as u32),
            None => r == Err::<u32, NoSuitableMemoryType>(NoSuitableMemoryType),
        },
{
    let ghost p = fitting_type(*memory, properties, requirements);
    let mut i: u32 = 0;
    while i < memory.memory_type_count
        invariant
            i <= memory.memory_type_count <= 32,
            memory.memory_type_count <= memory.memory_types@.len(),
            p == fitting_type(*memory, properties, requirements),
            first_index(memory.memory_type_count as int, p) == first_index_from(
                memory.memory_type_count as int,
                p,
                i as int,
            ),
        decreases memory.memory_type_count - i,
    {
        let is_suitable = (requirements.memory_type_bits & (1u32 << i)) != 0;
        let memory_type = memory.memory_types[i as usize];
        if is_suitable && memory_type.property_flags & properties == properties {
            assert(p(i as int));
            return Ok(i);
        }
        i = i + 1;
    }
    Err(NoSuitableMemoryType)
}

} // verus!
