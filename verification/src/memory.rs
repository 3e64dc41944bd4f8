//! Memory-type selection for the buffer/image allocator: scanning the
//! adapter's memory-type table for the first type that an allocation's
//! requirement mask admits and whose property flags satisfy the requested
//! visibility. Failure here is fatal and never retried: it signals a
//! driver or hardware incompatibility.

use vstd::prelude::*;
use crate::errors::SetupError;

verus! {

/// Property bit: memory local to the GPU, fastest for device access.
pub const MEMORY_DEVICE_LOCAL: u32 = 1;

/// Property bit: memory the host can map and write directly.
pub const MEMORY_CPU_VISIBLE: u32 = 2;

/// Property bit: host writes become visible without explicit flushes.
pub const MEMORY_COHERENT: u32 = 4;

/// Property bit: host reads of this memory are cached.
pub const MEMORY_CPU_CACHED: u32 = 8;

/// One entry of the adapter's memory-type table: its property flags.
#[derive(Clone, Copy, Debug, PartialEq, Eq, Structural)]
pub struct MemoryTypeInfo {
    pub properties: u32,
}

/// What an allocation asks of its memory type.
#[derive(Clone, Copy, Debug, PartialEq, Eq, Structural)]
pub enum Visibility {
    /// Host-mappable memory, for staging and uniform data the CPU writes.
    CpuVisible,
    /// GPU-resident memory, for vertex, index and texture data.
    DeviceLocal,
}

/// What a buffer or image demands of its backing allocation, as the
/// device reports it: byte size, placement alignment, and a bitmask of
/// the memory-type indices that may back it.
#[derive(Clone, Copy, Debug, PartialEq, Eq, Structural)]
pub struct MemoryRequirements {
    pub size: u64,
    pub alignment: u64,
    pub type_mask: u32,
}

/// The resolved half of an allocation: which memory type to allocate
/// from, and how many bytes.
#[derive(Clone, Copy, Debug, PartialEq, Eq, Structural)]
pub struct AllocationPlan {
    pub memory_type_index: usize,
    pub size: u64,
}

/// The property flags a visibility request translates to.
pub open spec fn spec_visibility_properties(v: Visibility) -> u32 {
    match v {
        Visibility::CpuVisible => MEMORY_CPU_VISIBLE,
        Visibility::DeviceLocal => MEMORY_DEVICE_LOCAL,
    }
}

/// Whether bit `i` of the requirement mask admits memory type `i`.
pub open spec fn mask_admits(type_mask: u32, i: int) -> bool {
    0 <= i < 32 && (type_mask >> (i as u32)) & 1u32 == 1u32
}

/// Whether property flags `props` include every flag of `required`.
pub open spec fn has_properties(props: u32, required: u32) -> bool {
    props & required == required
}

/// Whether memory type `i` of `types` can back an allocation with
/// requirement mask `type_mask` and required property flags `required`.
pub open spec fn type_suits(types: Seq<MemoryTypeInfo>, type_mask: u32, required: u32, i: int) -> bool {
    &&& 0 <= i < types.len()
    &&& mask_admits(type_mask, i)
    &&& has_properties(types[i].properties, required)
}

/// The property flags a visibility request asks for.
pub fn visibility_properties(v: Visibility) -> (r: u32)
    ensures
        r == spec_visibility_properties(v),
{
    match v {
        Visibility::CpuVisible => MEMORY_CPU_VISIBLE,
        Visibility::DeviceLocal => MEMORY_DEVICE_LOCAL,
    }
}

/// Scan the memory-type table for the first index that the requirement
/// mask admits and whose properties include all required flags. Returns
/// the first such index, or nothing when no type qualifies — never an
/// incompatible type.
pub fn find_memory_type(types: &Vec<MemoryTypeInfo>, type_mask: u32, required: u32) -> (r: Option<
    usize,
>)
    requires
        types@.len() <= 32,
    ensures
        match r {
            Some(i) => {
                &&& type_suits(types@, type_mask, required, i as int)
                &&& forall|j: int| 0 <= j < i ==> !type_suits(types@, type_mask, required, j)
            },
            None => forall|j: int| !type_suits(types@, type_mask, required, j),
        },
{
    let n = types.len();
    let mut i: usize = 0;
    while i < n
        invariant
            n == types@.len() <= 32,
            i <= n,
            forall|j: int| 0 <= j < i ==> !type_suits(types@, type_mask, required, j),
        decreases n - i,
    {
        if (type_mask >> (i as u32)) & 1u32 == 1u32 && types[i].properties & required == required {
            return Some(i);
        }
        i = i + 1;
    }
    None
}

/// Resolve an allocation: pick the first compatible memory type for the
/// reported requirements and the requested visibility, asking for exactly
/// the reported size. Fails with `NoCompatibleMemoryType` precisely when
/// no entry of the table qualifies.
pub fn plan_buffer_allocation(
    req: &MemoryRequirements,
    types: &Vec<MemoryTypeInfo>,
    visibility: Visibility,
) -> (r: Result<AllocationPlan, SetupError>)
    requires
        types@.len() <= 32,
    ensures
        match r {
            Ok(plan) => {
                &&& type_suits(
                    types@,
                    req.type_mask,
                    spec_visibility_properties(visibility),
                    plan.memory_type_index as int,
                )
                &&& forall|j: int|
                    0 <= j < plan.memory_type_index ==> !type_suits(
                        types@,
                        req.type_mask,
                        spec_visibility_properties(visibility),
                        j,
                    )
                &&& plan.size == req.size
            },
            Err(e) => {
                &&& e == SetupError::NoCompatibleMemoryType
                &&& forall|j: int|
                    !type_suits(types@, req.type_mask, spec_visibility_properties(visibility), j)
            },
        },
{
    let required = visibility_properties(visibility);
    match find_memory_type(types, req.type_mask, required) {
        Some(i) => Ok(AllocationPlan { memory_type_index: i, size: req.size }),
        None => Err(SetupError::NoCompatibleMemoryType),
    }
}

} // verus!
