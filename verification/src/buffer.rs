//! GPU buffers of typed elements: how big they are, how they are created, what a write of
//! new contents maps, and which Vulkan objects they give up when destroyed.
use vstd::prelude::*;
use core::marker::PhantomData;
use crate::vulkan::{
    BUFFER_USAGE_TRANSFER_DST, BUFFER_USAGE_TRANSFER_SRC, MEMORY_PROPERTY_DEVICE_LOCAL,
    MEMORY_PROPERTY_HOST_COHERENT, MEMORY_PROPERTY_HOST_VISIBLE,
};

verus! {

/// Data that can be written to a buffer of `T`: its elements, in order.
pub trait IntoBufferData<T> {
    spec fn buffer_elements(&self) -> Seq<T>;

    /// How many elements the data has.
    fn element_count(&self) -> (r: usize)
        ensures
            r == self.buffer_elements().len(),
    ;

    /// The elements, as one contiguous slice.
    fn as_buffer_slice(&self) -> (r: &[T])
        ensures
            r@ == self.buffer_elements(),
    ;
}

/// A slice holding just `value` (`core::slice::from_ref`).
#[verifier::external_body]
fn slice_of_one<T>(value: &T) -> (r: &[T])
    ensures
        r@ == seq![*value],
{
    core::slice::from_ref(value)
}

impl<T> IntoBufferData<T> for T {
    open spec fn buffer_elements(&self) -> Seq<T> {
        seq![*self]
    }

    fn element_count(&self) -> (r: usize) {
        1
    }

    fn as_buffer_slice(&self) -> (r: &[T]) {
        slice_of_one(self)
    }
}

impl<T> IntoBufferData<T> for Vec<T> {
    open spec fn buffer_elements(&self) -> Seq<T> {
        self@
    }

    fn element_count(&self) -> (r: usize) {
        self.len()
    }

    fn as_buffer_slice(&self) -> (r: &[T]) {
        self.as_slice()
    }
}

impl<T, const SIZE: usize> IntoBufferData<T> for [T; SIZE] {
    open spec fn buffer_elements(&self) -> Seq<T> {
        self@
    }

    fn element_count(&self) -> (r: usize) {
        SIZE
    }

    fn as_buffer_slice(&self) -> (r: &[T]) {
        self.as_slice()
    }
}

/// How one Vulkan buffer is to be created: its size in bytes, its usage flags and the
/// memory properties its memory needs.
#[derive(Clone, Copy, Debug, PartialEq, Eq, Structural)]
pub struct BufferCreateInfo {
    pub size: u64,
    pub usage: u32,
    pub memory_properties: u32,
}

/// Where the new contents of a buffer go: the memory to map and the number of bytes to
/// copy into it from the start.
#[derive(Clone, Copy, Debug, PartialEq, Eq, Structural)]
pub struct MappedWrite {
    pub memory: u64,
    pub size: u64,
}

/// The copy from the staging buffer to the buffer: source, destination, bytes.
#[derive(Clone, Copy, Debug, PartialEq, Eq, Structural)]
pub struct BufferCopy {
    pub src: u64,
    pub dst: u64,
    pub size: u64,
}

/// The Vulkan objects a buffer gives up when destroyed, in the order to destroy them.
#[derive(Clone, Copy, Debug, PartialEq, Eq, Structural)]
pub struct BufferRelease {
    pub buffer: Option<u64>,
    pub buffer_memory: Option<u64>,
    pub staging_buffer: Option<u64>,
    pub staging_buffer_memory: Option<u64>,
}

/// Why new contents could not be written to a buffer.
#[derive(Clone, Copy, Debug, PartialEq, Eq, Structural)]
pub enum BufferError {
    /// The memory written to was not created yet.
    NotCreated,
    /// The data has more elements than the buffer was made for.
    TooManyElements,
}

/// A buffer of at most `max_element_count` elements of `T`. When `require_submit` is set
/// the buffer lives in device memory and is filled through a host-visible staging buffer;
/// otherwise it is host-visible itself.
#[derive(Debug)]
pub struct Buffer<T> {
    usage: u32,
    curr_element_count: usize,
    max_element_count: usize,
    buffer: Option<u64>,
    buffer_memory: Option<u64>,
    require_submit: bool,
    staging_buffer: Option<u64>,
    staging_buffer_memory: Option<u64>,
    phantom: PhantomData<T>,
}

/// The state of a buffer that contracts speak of.
#[derive(Clone, Copy, Debug, PartialEq, Eq, Structural)]
pub struct BufferState {
    pub usage: u32,
    pub curr_element_count: usize,
    pub max_element_count: usize,
    pub buffer: Option<u64>,
    pub buffer_memory: Option<u64>,
    pub require_submit: bool,
    pub staging_buffer: Option<u64>,
    pub staging_buffer_memory: Option<u64>,
}

/// The number of bytes `count` elements of `T` take.
pub open spec fn bytes_of<T>(count: nat) -> nat {
    vstd::layout::size_of::<T>() * count
}

/// The memory a write of new contents goes to: the staging memory when the buffer is
/// filled through a staging buffer, its own memory otherwise.
pub open spec fn write_target(s: BufferState) -> Option<u64> {
    if s.require_submit {
        s.staging_buffer_memory
    } else {
        s.buffer_memory
    }
}

/// Whether the copy of a buffer's contents from its staging buffer can be recorded: both
/// buffers exist and the contents' size fits in a `u64`.
pub open spec fn can_submit<T>(s: BufferState) -> bool {
    &&& s.staging_buffer is Some
    &&& s.buffer is Some
    &&& bytes_of::<T>(s.curr_element_count as nat) <= u64::MAX
}

/// What taking new contents of `count` elements does to a buffer in state `s`, and what it
/// answers. Refused when the memory written to is not created yet, or when there are more
/// elements than the buffer holds; otherwise the element count becomes `count`, and when
/// there is at least one element, the answer names the memory to map and the bytes to copy.
pub open spec fn write_outcome<T>(s: BufferState, count: nat) -> (
    BufferState,
    Result<Option<MappedWrite>, BufferError>,
) {
    if write_target(s) is None {
        (s, Err(BufferError::NotCreated))
    } else if count > s.max_element_count {
        (s, Err(BufferError::TooManyElements))
    } else {
        (
            BufferState { curr_element_count: count as usize, ..s },
            Ok(
                if count > 0 {
                    Some(
                        MappedWrite {
                            memory: write_target(s).unwrap(),
                            size: bytes_of::<T>(count) as u64,
                        },
                    )
                } else {
                    None
                },
            ),
        )
    }
}

/// A buffer never holds more elements than it was made for: taking new contents keeps the
/// element count within the capacity, whatever is written.
pub proof fn lemma_write_stays_within_capacity<T>(s: BufferState, count: nat)
    requires
        s.curr_element_count <= s.max_element_count,
    ensures
        write_outcome::<T>(s, count).0.curr_element_count <= write_outcome::<T>(
            s,
            count,
        ).0.max_element_count,
        write_outcome::<T>(s, count).0.max_element_count == s.max_element_count,
        write_outcome::<T>(s, count).1 is Ok ==> write_outcome::<T>(s, count).0.curr_element_count
            == count,
{
}

impl<T> Buffer<T> {
    /// The state of the buffer.
    pub closed spec fn state(&self) -> BufferState {
        BufferState {
            usage: self.usage,
            curr_element_count: self.curr_element_count,
            max_element_count: self.max_element_count,
            buffer: self.buffer,
            buffer_memory: self.buffer_memory,
            require_submit: self.require_submit,
            staging_buffer: self.staging_buffer,
            staging_buffer_memory: self.staging_buffer_memory,
        }
    }

    /// A buffer for at most `max_element_count` elements, with no Vulkan objects yet.
    pub fn new(usage: u32, max_element_count: usize, require_submit: bool) -> (r: Self)
        ensures
            r.state() == (BufferState {
                usage,
                curr_element_count: 0,
                max_element_count,
                buffer: None,
                buffer_memory: None,
                require_submit,
                staging_buffer: None,
                staging_buffer_memory: None,
            }),
    {
        Buffer {
            usage,
            curr_element_count: 0,
            max_element_count,
            buffer: None,
            buffer_memory: None,
            require_submit,
            staging_buffer: None,
            staging_buffer_memory: None,
            phantom: PhantomData,
        }
    }

    /// The bytes the buffer can hold.
    pub fn allocated_buffer_size(&self) -> (r: u64)
        requires
            bytes_of::<T>(self.state().max_element_count as nat) <= u64::MAX,
        ensures
            r == bytes_of::<T>(self.state().max_element_count as nat),
    {
        let size = core::mem::size_of::<T>();
        assert(size * self.max_element_count <= u64::MAX);
        (size as u64) * (self.max_element_count as u64)
    }

    /// The bytes the current contents take.
    pub fn used_buffer_size(&self) -> (r: u64)
        requires
            bytes_of::<T>(self.state().curr_element_count as nat) <= u64::MAX,
        ensures
            r == bytes_of::<T>(self.state().curr_element_count as nat),
    {
        let size = core::mem::size_of::<T>();
        assert(size * self.curr_element_count <= u64::MAX);
        (size as u64) * (self.curr_element_count as u64)
    }

    /// The number of elements the buffer can hold.
    pub fn allocated_element_count(&self) -> (r: usize)
        ensures
            r == self.state().max_element_count,
    {
        self.max_element_count
    }

    /// The number of elements written last.
    pub fn used_element_count(&self) -> (r: usize)
        ensures
            r == self.state().curr_element_count,
    {
        self.curr_element_count
    }

    pub fn raw_buffer(&self) -> (r: Option<u64>)
        ensures
            r == self.state().buffer,
    {
        self.buffer
    }

    pub fn raw_buffer_memory(&self) -> (r: Option<u64>)
        ensures
            r == self.state().buffer_memory,
    {
        self.buffer_memory
    }

    pub fn raw_staging_buffer(&self) -> (r: Option<u64>)
        ensures
            r == self.state().staging_buffer,
    {
        self.staging_buffer
    }

    pub fn raw_staging_buffer_memory(&self) -> (r: Option<u64>)
        ensures
            r == self.state().staging_buffer_memory,
    {
        self.staging_buffer_memory
    }

    /// How the buffer itself is created: its full size; its usage, plus transfer
    /// destination when filled through a staging buffer; device-local memory then, and
    /// host-visible, host-coherent memory otherwise.
    pub fn buffer_create_info(&self) -> (r: BufferCreateInfo)
        requires
            bytes_of::<T>(self.state().max_element_count as nat) <= u64::MAX,
        ensures
            r.size == bytes_of::<T>(self.state().max_element_count as nat),
            r.usage == if self.state().require_submit {
                self.state().usage | BUFFER_USAGE_TRANSFER_DST
            } else {
                self.state().usage
            },
            r.memory_properties == if self.state().require_submit {
                MEMORY_PROPERTY_DEVICE_LOCAL
            } else {
                MEMORY_PROPERTY_HOST_COHERENT | MEMORY_PROPERTY_HOST_VISIBLE
            },
    {
        BufferCreateInfo {
            size: self.allocated_buffer_size(),
            usage: if self.require_submit {
                self.usage | BUFFER_USAGE_TRANSFER_DST
            } else {
                self.usage
            },
            memory_properties: if self.require_submit {
                MEMORY_PROPERTY_DEVICE_LOCAL
            } else {
                MEMORY_PROPERTY_HOST_COHERENT | MEMORY_PROPERTY_HOST_VISIBLE
            },
        }
    }

    /// How the staging buffer is created, when the buffer has one: full size, transfer
    /// source usage, host-visible, host-coherent memory.
    pub fn staging_buffer_create_info(&self) -> (r: Option<BufferCreateInfo>)
        requires
            bytes_of::<T>(self.state().max_element_count as nat) <= u64::MAX,
        ensures
            self.state().require_submit ==> r == Some(
                BufferCreateInfo {
                    size: bytes_of::<T>(self.state().max_element_count as nat) as u64,
                    usage: BUFFER_USAGE_TRANSFER_SRC,
                    memory_properties: MEMORY_PROPERTY_HOST_COHERENT | MEMORY_PROPERTY_HOST_VISIBLE,
                },
            ),
            !self.state().require_submit ==> r is None,
    {
        if self.require_submit {
            Some(
                BufferCreateInfo {
                    size: self.allocated_buffer_size(),
                    usage: BUFFER_USAGE_TRANSFER_SRC,
                    memory_properties: MEMORY_PROPERTY_HOST_COHERENT | MEMORY_PROPERTY_HOST_VISIBLE,
                },
            )
        } else {
            None
        }
    }

    /// Records the created buffer and its memory.
    pub fn set_buffer(&mut self, buffer: u64, buffer_memory: u64)
        ensures
            final(self).state() == (BufferState {
                buffer: Some(buffer),
                buffer_memory: Some(buffer_memory),
                ..old(self).state()
            }),
    {
        self.buffer = Some(buffer);
        self.buffer_memory = Some(buffer_memory);
    }

    /// Records the created staging buffer and its memory.
    pub fn set_staging_buffer(&mut self, staging_buffer: u64, staging_buffer_memory: u64)
        ensures
            final(self).state() == (BufferState {
                staging_buffer: Some(staging_buffer),
                staging_buffer_memory: Some(staging_buffer_memory),
                ..old(self).state()
            }),
    {
        self.staging_buffer = Some(staging_buffer);
        self.staging_buffer_memory = Some(staging_buffer_memory);
    }

    /// Takes new contents of `data.element_count()` elements (see `write_outcome`).
    pub fn set_data<D: IntoBufferData<T>>(&mut self, data: &D) -> (r: Result<
        Option<MappedWrite>,
        BufferError,
    >)
        requires
            bytes_of::<T>(old(self).state().max_element_count as nat) <= u64::MAX,
        ensures
            (final(self).state(), r) == write_outcome::<T>(
                old(self).state(),
                data.buffer_elements().len(),
            ),
    {
        let is_created = if self.require_submit {
            self.staging_buffer_memory.is_some()
        } else {
            self.buffer_memory.is_some()
        };
        if !is_created {
            return Err(BufferError::NotCreated);
        }
        let count = data.element_count();
        if count > self.max_element_count {
            return Err(BufferError::TooManyElements);
        }
        self.curr_element_count = count;
        if count > 0 {
            let memory = if self.require_submit {
                self.staging_buffer_memory.unwrap()
            } else {
                self.buffer_memory.unwrap()
            };
            proof {
                vstd::arithmetic::mul::lemma_mul_inequality(
                    count as int,
                    self.max_element_count as int,
                    vstd::layout::size_of::<T>() as int,
                );
                vstd::arithmetic::mul::lemma_mul_is_commutative(
                    count as int,
                    vstd::layout::size_of::<T>() as int,
                );
                vstd::arithmetic::mul::lemma_mul_is_commutative(
                    self.max_element_count as int,
                    vstd::layout::size_of::<T>() as int,
                );
            }
            Ok(Some(MappedWrite { memory, size: self.used_buffer_size() }))
        } else {
            Ok(None)
        }
    }

    /// Whether the copy of the current contents from the staging buffer can be recorded
    /// (see `can_submit`).
    pub fn submit_ready(&self) -> (r: bool)
        ensures
            r == can_submit::<T>(self.state()),
    {
        let size = core::mem::size_of::<T>() as u64;
        let count = self.curr_element_count as u64;
        let fits = match size.checked_mul(count) {
            Some(_) => true,
            None => false,
        };
        self.staging_buffer.is_some() && self.buffer.is_some() && fits
    }

    /// Whether the contents still have to be copied from the staging buffer.
    pub fn needs_submit(&self) -> (r: bool)
        ensures
            r == self.state().require_submit,
    {
        self.require_submit
    }

    /// The copy of the current contents from the staging buffer to the buffer.
    pub fn write_submit_to_command_buffer(&self) -> (r: BufferCopy)
        requires
            self.state().staging_buffer is Some,
            self.state().buffer is Some,
            bytes_of::<T>(self.state().curr_element_count as nat) <= u64::MAX,
        ensures
            r == (BufferCopy {
                src: self.state().staging_buffer.unwrap(),
                dst: self.state().buffer.unwrap(),
                size: bytes_of::<T>(self.state().curr_element_count as nat) as u64,
            }),
    {
        BufferCopy {
            src: self.staging_buffer.unwrap(),
            dst: self.buffer.unwrap(),
            size: self.used_buffer_size(),
        }
    }

    /// Gives up the buffer's Vulkan objects, leaving it without any.
    pub fn destroy(&mut self) -> (r: BufferRelease)
        ensures
            r == (BufferRelease {
                buffer: old(self).state().buffer,
                buffer_memory: old(self).state().buffer_memory,
                staging_buffer: old(self).state().staging_buffer,
                staging_buffer_memory: old(self).state().staging_buffer_memory,
            }),
            final(self).state() == (BufferState {
                buffer: None,
                buffer_memory: None,
                staging_buffer: None,
                staging_buffer_memory: None,
                ..old(self).state()
            }),
    {
        BufferRelease {
            buffer: self.buffer.take(),
            buffer_memory: self.buffer_memory.take(),
            staging_buffer: self.staging_buffer.take(),
            staging_buffer_memory: self.staging_buffer_memory.take(),
        }
    }
}

} // verus!
