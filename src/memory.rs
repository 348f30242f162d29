//! Device-memory planning: rounding allocation sizes up to an alignment and
//! picking a memory type that the buffer accepts and that has the wanted
//! property flags.
use vstd::prelude::*;
use vstd::arithmetic::div_mod::{lemma_fundamental_div_mod, lemma_mod_multiples_basic};
use crate::codec::VERTEX_STRIDE;

verus! {

/// Raw `VK_MEMORY_PROPERTY_HOST_COHERENT_BIT`.
pub const MEMORY_PROPERTY_HOST_COHERENT: u32 = 0x4;

/// Raw `VK_MEMORY_PROPERTY_HOST_VISIBLE_BIT`.
pub const MEMORY_PROPERTY_HOST_VISIBLE: u32 = 0x2;

/// The properties vertex upload memory needs: mappable and coherent, so that
/// the copy is seen by the device without flushing.
pub const UPLOAD_MEMORY_PROPERTIES: u32 = 0x6;

/// The most memory types a device reports.
pub const MAX_MEMORY_TYPES: usize = 32;

/// What the device requires of the memory bound to a resource.
#[derive(Clone, Copy, Debug, PartialEq, Eq, Structural)]
pub struct MemoryRequirements {
    pub size: u64,
    pub alignment: u64,
    /// Bit `i` is set when memory type `i` may back the resource.
    pub memory_type_bits: u32,
}

/// How a resource's memory is to be allocated.
#[derive(Clone, Copy, Debug, PartialEq, Eq, Structural)]
pub struct MemoryAllocation {
    pub allocation_size: u64,
    pub memory_type_index: u32,
}

/// Why no allocation could be planned.
#[derive(Clone, Copy, Debug, PartialEq, Eq, Structural)]
pub enum MemoryError {
    /// No memory type is both allowed and has the required properties.
    NoSuitableMemoryType,
    /// The buffer size or the rounded-up size does not fit in 64 bits.
    SizeOverflow,
    /// The device requires less memory than the buffer's size.
    UndersizedRequirement,
}

/// `value` rounded up to the next multiple of `alignment`.
pub open spec fn align_up(value: int, alignment: int) -> int {
    if value % alignment == 0 {
        value
    } else {
        (value / alignment + 1) * alignment
    }
}

/// Bit `i` of a memory-type mask is set.
pub open spec fn type_allowed(filter: u32, i: u32) -> bool {
    (filter >> i) & 1u32 == 1u32
}

/// Every flag of `required` is set in `flags`.
pub open spec fn flags_contain(flags: u32, required: u32) -> bool {
    flags & required == required
}

/// Memory type `i` may back the resource and has the required properties.
pub open spec fn memory_type_suitable(filter: u32, required: u32, types: Seq<u32>, i: int) -> bool {
    &&& 0 <= i < types.len()
    &&& type_allowed(filter, i as u32)
    &&& flags_contain(types[i], required)
}

/// The result of `align_up` is the least multiple of the alignment that is
/// not below the value.
pub proof fn lemma_align_up(value: int, alignment: int)
    requires
        0 <= value,
        0 < alignment,
    ensures
        align_up(value, alignment) % alignment == 0,
        value <= align_up(value, alignment) < value + alignment,
{
    lemma_fundamental_div_mod(value, alignment);
    let q = value / alignment;
    if value % alignment == 0 {
    } else {
        let r = value % alignment;
        assert((q + 1) * alignment == alignment * q + alignment) by (nonlinear_arith);
        assert(0 < r < alignment);
        lemma_mod_multiples_basic(q + 1, alignment);
    }
}

/// Rounds `value` up to a multiple of `alignment`, or `None` when the result
/// does not fit in 64 bits.
pub fn align_to(value: u64, alignment: u64) -> (r: Option<u64>)
    requires
        alignment > 0,
    ensures
        r.is_some() <==> align_up(value as int, alignment as int) <= u64::MAX,
        r.is_some() ==> r.unwrap() == align_up(value as int, alignment as int),
{
    let rem = value % alignment;
    if rem == 0 {
        Some(value)
    } else {
        let q = value / alignment;
        proof {
            lemma_fundamental_div_mod(value as int, alignment as int);
            assert(alignment >= 2);
            assert(q <= value / 2) by (nonlinear_arith)
                requires q == value / alignment, alignment >= 2;
        }
        (q + 1).checked_mul(alignment)
    }
}

/// Picks the first memory type that the filter allows and that has every
/// required property flag.
pub fn query_memory_type(type_filter: u32, required: u32, memory_types: &Vec<u32>) -> (r: Option<u32>)
    requires
        memory_types@.len() <= MAX_MEMORY_TYPES,
    ensures
        r matches Some(i) ==> memory_type_suitable(type_filter, required, memory_types@, i as int)
            && forall|j: int| 0 <= j < i ==> !memory_type_suitable(type_filter, required, memory_types@, j),
        r is None ==> forall|j: int| 0 <= j < memory_types@.len()
            ==> !memory_type_suitable(type_filter, required, memory_types@, j),
{
    let mut i: usize = 0;
    while i < memory_types.len()
        invariant
            i <= memory_types@.len() <= MAX_MEMORY_TYPES,
            forall|j: int| 0 <= j < i ==> !memory_type_suitable(type_filter, required, memory_types@, j),
        decreases memory_types@.len() - i,
    {
        let bit = i as u32;
        if (type_filter >> bit) & 1u32 == 1u32 && memory_types[i] & required == required {
            return Some(bit);
        }
        i = i + 1;
    }
    None
}

/// Plans the allocation behind a resource: the required size rounded up to
/// the required alignment, in the first suitable memory type.
pub fn plan_allocation(requirements: MemoryRequirements, required: u32, memory_types: &Vec<u32>) -> (r: Result<MemoryAllocation, MemoryError>)
    requires
        requirements.alignment > 0,
        memory_types@.len() <= MAX_MEMORY_TYPES,
    ensures
        r matches Ok(a) ==> {
            &&& a.allocation_size == align_up(requirements.size as int, requirements.alignment as int)
            &&& a.allocation_size % requirements.alignment == 0
            &&& requirements.size <= a.allocation_size < requirements.size + requirements.alignment
            &&& memory_type_suitable(requirements.memory_type_bits, required, memory_types@, a.memory_type_index as int)
            &&& forall|j: int| 0 <= j < a.memory_type_index
                ==> !memory_type_suitable(requirements.memory_type_bits, required, memory_types@, j)
        },
        r == Err::<MemoryAllocation, MemoryError>(MemoryError::NoSuitableMemoryType) <==> forall|j: int|
            0 <= j < memory_types@.len() ==> !memory_type_suitable(requirements.memory_type_bits, required, memory_types@, j),
        r == Err::<MemoryAllocation, MemoryError>(MemoryError::SizeOverflow) <==> (
            exists|j: int| memory_type_suitable(requirements.memory_type_bits, required, memory_types@, j))
            && align_up(requirements.size as int, requirements.alignment as int) > u64::MAX,
        r is Ok <==> (exists|j: int| memory_type_suitable(requirements.memory_type_bits, required, memory_types@, j))
            && align_up(requirements.size as int, requirements.alignment as int) <= u64::MAX,
{
    let index = match query_memory_type(requirements.memory_type_bits, required, memory_types) {
        Some(i) => i,
        None => return Err(MemoryError::NoSuitableMemoryType),
    };
    proof {
        lemma_align_up(requirements.size as int, requirements.alignment as int);
    }
    match align_to(requirements.size, requirements.alignment) {
        Some(size) => Ok(MemoryAllocation { allocation_size: size, memory_type_index: index }),
        None => Err(MemoryError::SizeOverflow),
    }
}

/// Plans the memory of a vertex buffer of `vertex_count` records: the
/// buffer's size, checked against what the device requires, rounded up to
/// the required alignment, in the first mappable, coherent memory type.
pub fn plan_vertex_allocation(vertex_count: u64, requirements: MemoryRequirements, memory_types: &Vec<u32>) -> (r: Result<MemoryAllocation, MemoryError>)
    requires
        requirements.alignment > 0,
        memory_types@.len() <= MAX_MEMORY_TYPES,
    ensures
        VERTEX_STRIDE * vertex_count > u64::MAX ==> r == Err::<MemoryAllocation, MemoryError>(MemoryError::SizeOverflow),
        VERTEX_STRIDE * vertex_count <= u64::MAX && requirements.size < VERTEX_STRIDE * vertex_count
            ==> r == Err::<MemoryAllocation, MemoryError>(MemoryError::UndersizedRequirement),
        VERTEX_STRIDE * vertex_count <= requirements.size ==> {
            &&& (r is Ok <==> (exists|j: int| memory_type_suitable(requirements.memory_type_bits, UPLOAD_MEMORY_PROPERTIES, memory_types@, j))
                && align_up(requirements.size as int, requirements.alignment as int) <= u64::MAX)
            &&& (r == Err::<MemoryAllocation, MemoryError>(MemoryError::NoSuitableMemoryType) <==> forall|j: int|
                0 <= j < memory_types@.len() ==> !memory_type_suitable(requirements.memory_type_bits, UPLOAD_MEMORY_PROPERTIES, memory_types@, j))
            &&& (r is Err ==> r == Err::<MemoryAllocation, MemoryError>(MemoryError::NoSuitableMemoryType)
                || r == Err::<MemoryAllocation, MemoryError>(MemoryError::SizeOverflow))
        },
        r matches Ok(a) ==> {
            &&& VERTEX_STRIDE * vertex_count <= requirements.size <= a.allocation_size
            &&& a.allocation_size < requirements.size + requirements.alignment
            &&& a.allocation_size % requirements.alignment == 0
            &&& a.allocation_size == align_up(requirements.size as int, requirements.alignment as int)
            &&& memory_type_suitable(requirements.memory_type_bits, UPLOAD_MEMORY_PROPERTIES, memory_types@, a.memory_type_index as int)
            &&& forall|j: int| 0 <= j < a.memory_type_index
                ==> !memory_type_suitable(requirements.memory_type_bits, UPLOAD_MEMORY_PROPERTIES, memory_types@, j)
        },
{
    let bytes = match buffer_size(VERTEX_STRIDE, vertex_count) {
        Some(b) => b,
        None => return Err(MemoryError::SizeOverflow),
    };
    if requirements.size < bytes {
        return Err(MemoryError::UndersizedRequirement);
    }
    plan_allocation(requirements, UPLOAD_MEMORY_PROPERTIES, memory_types)
}

/// The size in bytes of a buffer of `count` records of `stride` bytes, or
/// `None` when it does not fit in 64 bits.
pub fn buffer_size(stride: u64, count: u64) -> (r: Option<u64>)
    ensures
        r.is_some() <==> stride * count <= u64::MAX,
        r.is_some() ==> r.unwrap() == stride * count,
{
    stride.checked_mul(count)
}

} // verus!
