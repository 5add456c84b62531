//! Selection of a memory type for a buffer, the memory's size, and the range
//! of each host-to-device upload.

use vstd::prelude::*;

use crate::buffer::Buffer;

verus! {

/// Declares gfx_hal::memory::Requirements: size, alignment and allowed
/// memory types of a resource, as the device reports them.
#[verifier::external_type_specification]
pub struct ExRequirements(gfx_hal::memory::Requirements);

/// Bit of the memory property flags: visible to the host.
pub const CPU_VISIBLE: u16 = 0x2;

/// Bit of the memory property flags: host writes need no flush.
pub const COHERENT: u16 = 0x4;

/// Whether memory type `i` is one the requirement's type mask allows.
pub open spec fn type_allowed(type_mask: u64, i: int) -> bool {
    0 <= i < 64 && type_mask & (1u64 << (i as u64)) != 0
}

/// Whether properties hold both host visibility and coherence.
pub open spec fn host_coherent(properties: u16) -> bool {
    properties & (CPU_VISIBLE | COHERENT) == (CPU_VISIBLE | COHERENT)
}

/// Whether memory type `i` of `types` can take host uploads for a buffer
/// with type mask `type_mask`.
pub open spec fn upload_compatible(types: Seq<u16>, type_mask: u64, i: int) -> bool {
    0 <= i < types.len() && type_allowed(type_mask, i) && host_coherent(types[i])
}

/// Picks the first memory type, in the order given, that the mask allows and
/// that is host visible and coherent. `memory_types` holds the property bits
/// of each type.
pub fn upload_type(memory_types: &Vec<u16>, type_mask: u64) -> (r: Option<usize>)
    ensures
        match r {
            Some(i) => upload_compatible(memory_types@, type_mask, i as int) && forall|j: int|
                0 <= j < i ==> !upload_compatible(memory_types@, type_mask, j),
            None => forall|j: int| !upload_compatible(memory_types@, type_mask, j),
        },
{
    let mut i: usize = 0;
    while i < memory_types.len()
        invariant
            i <= memory_types.len(),
            forall|j: int| 0 <= j < i ==> !upload_compatible(memory_types@, type_mask, j),
        decreases memory_types.len() - i,
    {
        if i < 64 && type_mask & (1u64 << (i as u64)) != 0 && memory_types[i] & (CPU_VISIBLE
            | COHERENT) == (CPU_VISIBLE | COHERENT) {
            return Some(i);
        }
        i = i + 1;
    }
    None
}

/// Why memory could not be set up for a buffer, or an upload was refused.
#[derive(Clone, Copy, Debug, PartialEq, Eq, Structural)]
pub enum MemoryError {
    /// No memory type is both allowed for the buffer and host visible and
    /// coherent.
    NoUploadType,
    /// The device requires less memory than the buffer's contents take.
    RequirementTooSmall,
    /// The upload would reach past the end of the memory.
    OutOfBounds,
}

/// The range of memory that an upload writes.
#[derive(Clone, Copy, Debug, PartialEq, Eq, Structural)]
pub struct Upload {
    pub offset: u64,
    pub len: u64,
}

/// Device memory bound to one buffer.
pub struct Memory {
    pub buffer: Buffer,
    /// Index of the memory type allocated from.
    pub type_id: usize,
    /// Bytes allocated.
    pub size: u64,
    /// Bytes the device reported the buffer to need.
    pub required: u64,
}

impl Memory {
    pub open spec fn wf(&self) -> bool {
        &&& self.buffer.wf()
        &&& self.size >= self.required
        &&& self.size >= self.buffer.len
    }

    /// Plans the memory of `buffer`, given what the device requires of it and
    /// the property bits of each memory type: the first compatible type, and
    /// the required size.
    pub fn new(buffer: Buffer, requirements: &gfx_hal::memory::Requirements, memory_types: &Vec<u16>) -> (r: Result<Memory, MemoryError>)
        requires
            buffer.wf(),
        ensures
            match r {
                Ok(m) => {
                    &&& m.wf()
                    &&& m.buffer == buffer
                    &&& m.size == requirements.size
                    &&& m.required == requirements.size
                    &&& upload_compatible(memory_types@, requirements.type_mask, m.type_id as int)
                    &&& forall|j: int| 0 <= j < m.type_id ==> !upload_compatible(memory_types@, requirements.type_mask, j)
                },
                Err(e) => {
                    &&& (e == MemoryError::NoUploadType) == (forall|j: int| !upload_compatible(memory_types@, requirements.type_mask, j))
                    &&& (e == MemoryError::RequirementTooSmall) == ((exists|j: int| upload_compatible(memory_types@, requirements.type_mask, j)) && requirements.size < buffer.len)
                    &&& e != MemoryError::OutOfBounds
                },
            },
            r is Ok <==> (exists|j: int| upload_compatible(memory_types@, requirements.type_mask, j)) && requirements.size >= buffer.len,
    {
        match upload_type(memory_types, requirements.type_mask) {
            None => Err(MemoryError::NoUploadType),
            Some(type_id) => {
                if requirements.size < buffer.len {
                    Err(MemoryError::RequirementTooSmall)
                } else {
                    Ok(Memory { buffer, type_id, size: requirements.size, required: requirements.size })
                }
            },
        }
    }

    /// The first upload: the whole contents, from the start of the memory.
    pub fn initial_upload(&self) -> (r: Upload)
        requires
            self.wf(),
        ensures
            r.offset == 0,
            r.len == self.buffer.len,
            r.offset + r.len <= self.size,
    {
        Upload { offset: 0, len: self.buffer.len }
    }

    /// A partial upload of the contents at `offset`: refused when it would
    /// reach past the end of the memory.
    pub fn update_data(&self, offset: u64) -> (r: Result<Upload, MemoryError>)
        ensures
            match r {
                Ok(u) => u.offset == offset && u.len == self.buffer.len && offset + self.buffer.len <= self.size,
                Err(e) => e == MemoryError::OutOfBounds && offset + self.buffer.len > self.size,
            },
    {
        if offset > self.size || self.buffer.len > self.size - offset {
            Err(MemoryError::OutOfBounds)
        } else {
            Ok(Upload { offset, len: self.buffer.len })
        }
    }
}

/// Memory set up for a buffer is never smaller than the device's requirement
/// for it, nor than the buffer's contents.
pub proof fn lemma_memory_covers_requirement(m: Memory)
    requires
        m.wf(),
    ensures
        m.size >= m.required,
        m.size >= m.buffer.len,
{
}

} // verus!
