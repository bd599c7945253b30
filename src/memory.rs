use vstd::prelude::*;

verus! {

/// Property flags of a kind of device memory, held as the raw bits of
/// gfx-hal's `memory::Properties` (device local, CPU visible, coherent, ...).
#[derive(Clone, Copy, Debug, PartialEq, Eq, Structural)]
pub struct MemoryFlags {
    pub bits: u16,
}

/// Relies on gfx-hal's `memory::Properties::DEVICE_LOCAL` and on bitflags'
/// `bits`, which hands back the raw value of the flag: 0x1.
#[verifier::external_body]
fn device_local_bits() -> (r: u16)
    ensures
        r == 0x1u16,
{
    gfx_hal::memory::Properties::DEVICE_LOCAL.bits()
}

impl MemoryFlags {
    /// Every flag of `other` is set in `self`.
    pub open spec fn spec_contains(self, other: MemoryFlags) -> bool {
        self.bits & other.bits == other.bits
    }

    /// Whether every flag of `other` is set in `self`.
    pub fn contains(&self, other: MemoryFlags) -> (r: bool)
        ensures
            r == self.spec_contains(other),
    {
        self.bits & other.bits == other.bits
    }

    /// The flag of memory that lives on the GPU itself.
    pub fn device_local() -> (r: MemoryFlags)
        ensures
            r.bits == 0x1u16,
    {
        MemoryFlags { bits: device_local_bits() }
    }
}

/// A resource's memory requirements admit the memory type with index `id`:
/// bit `id` of `type_mask` is set. A 64-bit mask names no index from 64 on.
pub open spec fn mask_admits(type_mask: u64, id: int) -> bool {
    0 <= id < 64 && type_mask & (1u64 << (id as u64)) != 0
}

/// Memory type `id` of `types` can hold a resource whose requirements carry
/// `type_mask` and which asks for the flags `required`.
pub open spec fn suitable(type_mask: u64, types: Seq<MemoryFlags>, required: MemoryFlags, id: int) -> bool {
    &&& 0 <= id < types.len()
    &&& mask_admits(type_mask, id)
    &&& types[id].spec_contains(required)
}

/// `r` is the choice of memory type: the first suitable one, or none when no
/// type is suitable.
pub open spec fn first_suitable(
    type_mask: u64,
    types: Seq<MemoryFlags>,
    required: MemoryFlags,
    r: Option<usize>,
) -> bool {
    match r {
        Some(i) => suitable(type_mask, types, required, i as int) && forall|j: int|
            0 <= j < i ==> !#[trigger] suitable(type_mask, types, required, j),
        None => forall|j: int| 0 <= j < types.len() ==> !#[trigger] suitable(type_mask, types, required, j),
    }
}

/// Picks the memory type for a resource: the index of the first of
/// `memory_types` that the requirement mask `type_mask` admits and that has
/// every flag of `required`.
pub fn find_memory_type(type_mask: u64, memory_types: &[MemoryFlags], required: MemoryFlags) -> (r: Option<usize>)
    ensures
        first_suitable(type_mask, memory_types@, required, r),
{
    let mut id: usize = 0;
    while id < memory_types.len()
        invariant
            id <= memory_types@.len(),
            forall|j: int| 0 <= j < id ==> !#[trigger] suitable(type_mask, memory_types@, required, j),
        decreases memory_types@.len() - id,
    {
        if id < 64 && type_mask & (1u64 << (id as u64)) != 0 && memory_types[id].contains(required) {
            return Some(id);
        }
        id += 1;
    }
    None
}

/// Picks the memory type for an image: the first of `memory_types` that the
/// mask admits and that is device local.
pub fn image_memory_type(type_mask: u64, memory_types: &[MemoryFlags]) -> (r: Option<usize>)
    ensures
        first_suitable(type_mask, memory_types@, (MemoryFlags { bits: 0x1u16 }), r),
{
    find_memory_type(type_mask, memory_types, MemoryFlags::device_local())
}

} // verus!
