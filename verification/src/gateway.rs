//! Plain-value model of the device allocation gateway: the external
//! memory-type-selection and buffer-creation service the pooling layer
//! consumes. The caller performs the actual device calls and hands the
//! results — raw handles and allocation records — to this crate as the
//! values modeled here.

use vstd::prelude::*;

use crate::flags::MEMORY_PROPERTY_DEVICE_LOCAL;
use crate::flags::MEMORY_PROPERTY_HOST_VISIBLE;

verus! {

/// An error code reported by the device allocator, carried through
/// unmodified.
#[derive(Clone, Copy, Debug, PartialEq, Eq, Structural, Hash)]
pub struct GatewayError {
    /// The raw result code the device call reported.
    pub code: i32,
}

/// Identity of one linear sub-allocator pool the gateway created.
#[derive(Clone, Copy, Debug, PartialEq, Eq, Structural, Hash)]
pub struct AllocatorPoolId {
    /// The caller's identifier for the pool object it holds.
    pub id: u64,
}

/// What the allocator reported about one allocation it made.
#[derive(Clone, Copy, Debug, PartialEq, Eq, Structural, Hash)]
pub struct AllocationInfo {
    /// Byte offset of the allocation inside its device memory block.
    pub offset: u64,
    /// Byte size of the allocation.
    pub size: u64,
    /// Address of the persistently mapped data, or zero when the
    /// allocation is not host-mapped.
    pub mapped_ptr: u64,
}

/// Everything the gateway hands back for one created buffer: the raw
/// buffer handle, the allocation handle, and the allocation record.
#[derive(Clone, Copy, Debug, PartialEq, Eq, Structural, Hash)]
pub struct GatewayAllocation {
    /// Raw device buffer handle.
    pub buffer: u64,
    /// Allocator-side allocation handle.
    pub allocation: u64,
    /// What the allocator reported about the allocation.
    pub info: AllocationInfo,
}

impl GatewayAllocation {
    /// The mapped-data address as an optional value: present exactly when
    /// the allocator reported a non-null mapping.
    pub fn mapped_data(&self) -> (r: Option<u64>)
        ensures
            r is Some <==> self.info.mapped_ptr != 0,
            r is Some ==> r == Some(self.info.mapped_ptr),
    {
        if self.info.mapped_ptr != 0 {
            Some(self.info.mapped_ptr)
        } else {
            None
        }
    }
}

/// What one linear sub-allocator pool is asked to be: the resolved memory
/// type, a fixed byte capacity in a single backing block, and the linear
/// (bump) allocation algorithm.
#[derive(Clone, Copy, Debug, PartialEq, Eq, Structural, Hash)]
pub struct PoolCreateDesc {
    /// The memory type the pool must allocate from.
    pub memory_type_index: u32,
    /// Byte capacity of the pool's single backing block.
    pub block_size: u64,
    /// Whether the pool uses the linear (bump) allocation algorithm.
    pub linear: bool,
    /// Fewest backing blocks the pool may hold.
    pub min_block_count: u32,
    /// Most backing blocks the pool may hold.
    pub max_block_count: u32,
}

/// The property flag words of the device's memory types, indexed by
/// memory type index.
pub struct MemoryTypes {
    /// Property flags of each memory type, in device order.
    pub property_flags: Vec<u32>,
}

impl MemoryTypes {
    /// Whether memory type `i` is mappable by the host.
    pub open spec fn spec_host_visible(&self, i: int) -> bool {
        self.property_flags@[i] & MEMORY_PROPERTY_HOST_VISIBLE == MEMORY_PROPERTY_HOST_VISIBLE
    }

    /// Whether memory type `i` is located on the device.
    pub open spec fn spec_device_local(&self, i: int) -> bool {
        self.property_flags@[i] & MEMORY_PROPERTY_DEVICE_LOCAL == MEMORY_PROPERTY_DEVICE_LOCAL
    }

    /// Find whether a certain memory type index is visible to the cpu,
    /// i.e. able to be mapped.
    pub fn is_memory_type_host_visible(&self, type_index: u32) -> (r: bool)
        requires
            (type_index as int) < self.property_flags@.len(),
        ensures
            r == self.spec_host_visible(type_index as int),
    {
        let flags = self.property_flags[type_index as usize];
        flags & MEMORY_PROPERTY_HOST_VISIBLE == MEMORY_PROPERTY_HOST_VISIBLE
    }

    /// Find whether a certain memory type index is device local, i.e.
    /// fast for on-device access.
    pub fn is_memory_type_device_local(&self, type_index: u32) -> (r: bool)
        requires
            (type_index as int) < self.property_flags@.len(),
        ensures
            r == self.spec_device_local(type_index as int),
    {
        let flags = self.property_flags[type_index as usize];
        flags & MEMORY_PROPERTY_DEVICE_LOCAL == MEMORY_PROPERTY_DEVICE_LOCAL
    }
}

} // verus!
