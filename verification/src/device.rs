//! The device-side decisions behind buffer creation: which queue families
//! share a buffer, what the allocator is asked for, and which usage bits
//! an upload-capable buffer needs. The raw device and allocator calls
//! themselves are the caller's; these functions compute exactly what to
//! hand them.

use vstd::prelude::*;

use crate::buffer::BufferCreateInfo;
use crate::buffer::BufferUsageDomain;
use crate::flags::BUFFER_USAGE_TRANSFER_DST;
use crate::flags::MEMORY_PROPERTY_DEVICE_LOCAL;
use crate::flags::MEMORY_PROPERTY_HOST_CACHED;
use crate::flags::MEMORY_PROPERTY_HOST_VISIBLE;

verus! {

/// Whether a buffer is owned by one queue family or shared among several.
#[derive(Clone, Copy, Debug, Eq, PartialEq, Structural, Hash)]
pub enum SharingMode {
    /// The buffer belongs to a single queue family at a time.
    Exclusive,
    /// The buffer is shared among the named queue families.
    Concurrent,
}

/// Everything the raw buffer-creation call is handed: size, usage, and
/// how the queue families share the buffer.
#[derive(Debug)]
pub struct BufferCreateDesc {
    /// Size of the buffer, in bytes.
    pub size: u64,
    /// Usage of the buffer.
    pub usage: u32,
    /// How queue families share the buffer.
    pub sharing_mode: SharingMode,
    /// The queue families the buffer is shared among; empty when
    /// exclusive.
    pub queue_family_indices: Vec<u32>,
}

/// What the allocator is asked for alongside a buffer-creation call.
#[derive(Clone, Copy, Debug, Eq, PartialEq, Hash)]
pub struct AllocationCreateDesc {
    /// Ask for a persistently mapped allocation where possible.
    pub mapped: bool,
    /// Memory property bits the allocation must have.
    pub required_flags: u32,
    /// Memory property bits the allocation prefers.
    pub preferred_flags: u32,
    /// The sub-allocator pool to allocate from, if the allocation is
    /// carved from one instead of the general heaps.
    pub pool: Option<crate::gateway::AllocatorPoolId>,
}

/// What the allocator is asked for when a buffer is carved out of a
/// specific sub-allocator pool: a persistently mapped allocation from
/// that pool, with no further memory property demands — the pool's
/// memory type was fixed when the pool was made.
pub fn allocation_in_pool_desc(pool: crate::gateway::AllocatorPoolId) -> (r: AllocationCreateDesc)
    ensures
        r.mapped,
        r.required_flags == 0,
        r.preferred_flags == 0,
        r.pool == Some(pool),
{
    AllocationCreateDesc { mapped: true, required_flags: 0, preferred_flags: 0, pool: Some(pool) }
}

/// The memory property bits a domain demands.
pub open spec fn spec_required_flags(domain: BufferUsageDomain) -> u32 {
    match domain {
        BufferUsageDomain::Device => MEMORY_PROPERTY_DEVICE_LOCAL,
        BufferUsageDomain::DeviceDynamic => MEMORY_PROPERTY_DEVICE_LOCAL,
        BufferUsageDomain::Host => MEMORY_PROPERTY_HOST_VISIBLE,
        BufferUsageDomain::Readback => MEMORY_PROPERTY_HOST_VISIBLE | MEMORY_PROPERTY_HOST_CACHED,
    }
}

/// The memory property bits a domain prefers on top of what it demands.
pub open spec fn spec_preferred_flags(domain: BufferUsageDomain) -> u32 {
    match domain {
        BufferUsageDomain::DeviceDynamic => MEMORY_PROPERTY_HOST_VISIBLE,
        _ => 0u32,
    }
}

/// Create the corresponding allocation request for a specified
/// `BufferCreateInfo`: a persistently mapped allocation whose memory
/// properties follow the buffer's domain.
pub fn allocation_info_from_buffer_create_info(create_info: BufferCreateInfo) -> (r:
    AllocationCreateDesc)
    ensures
        r.mapped,
        r.required_flags == spec_required_flags(create_info.domain),
        r.preferred_flags == spec_preferred_flags(create_info.domain),
        r.pool is None,
{
    AllocationCreateDesc {
        mapped: true,
        required_flags: match create_info.domain {
            BufferUsageDomain::Device => MEMORY_PROPERTY_DEVICE_LOCAL,
            BufferUsageDomain::DeviceDynamic => MEMORY_PROPERTY_DEVICE_LOCAL,
            BufferUsageDomain::Host => MEMORY_PROPERTY_HOST_VISIBLE,
            BufferUsageDomain::Readback => MEMORY_PROPERTY_HOST_VISIBLE
                | MEMORY_PROPERTY_HOST_CACHED,
        },
        preferred_flags: match create_info.domain {
            BufferUsageDomain::DeviceDynamic => MEMORY_PROPERTY_HOST_VISIBLE,
            _ => 0,
        },
        pool: None,
    }
}

/// Any buffer that does not live in host memory gets the
/// transfer-destination bit, so initial data can be uploaded into it.
pub fn upload_capable_create_info(create_info: BufferCreateInfo) -> (r: BufferCreateInfo)
    ensures
        r.size == create_info.size,
        r.domain == create_info.domain,
        r.usage == if create_info.domain is Host {
            create_info.usage
        } else {
            create_info.usage | BUFFER_USAGE_TRANSFER_DST
        },
{
    if create_info.domain != BufferUsageDomain::Host {
        BufferCreateInfo {
            usage: create_info.usage | BUFFER_USAGE_TRANSFER_DST,
            ..create_info
        }
    } else {
        create_info
    }
}

/// The queue families of a device, and whether more than one of them
/// exists at all.
#[derive(Clone, Copy, Debug, Eq, PartialEq, Structural, Hash)]
pub struct QueueTopology {
    /// Whether the device drives more than one queue family.
    pub multiple_queue_families: bool,
    /// The graphics queue family.
    pub graphics_queue_family_index: u32,
    /// The compute queue family.
    pub compute_queue_family_index: u32,
    /// The transfer queue family.
    pub transfer_queue_family_index: u32,
}

impl QueueTopology {
    /// The distinct queue families a concurrently shared buffer is handed
    /// to: graphics always, compute if it differs from graphics, transfer
    /// if it differs from both.
    pub open spec fn spec_shared_queue_families(&self) -> Seq<u32> {
        let g = seq![self.graphics_queue_family_index];
        let gc = if self.graphics_queue_family_index != self.compute_queue_family_index {
            g.push(self.compute_queue_family_index)
        } else {
            g
        };
        if self.graphics_queue_family_index != self.transfer_queue_family_index
            && self.compute_queue_family_index != self.transfer_queue_family_index {
            gc.push(self.transfer_queue_family_index)
        } else {
            gc
        }
    }

    /// Create the corresponding raw buffer-creation request for a given
    /// `BufferCreateInfo`: with several queue families the buffer is
    /// shared concurrently among the distinct ones, otherwise it is
    /// exclusive.
    pub fn raw_buffer_create_info(&self, create_info: BufferCreateInfo) -> (r: BufferCreateDesc)
        ensures
            r.size == create_info.size,
            r.usage == create_info.usage,
            self.multiple_queue_families ==> r.sharing_mode == SharingMode::Concurrent
                && r.queue_family_indices@ == self.spec_shared_queue_families(),
            !self.multiple_queue_families ==> r.sharing_mode == SharingMode::Exclusive
                && r.queue_family_indices@.len() == 0,
    {
        let mut queue_family_indices: Vec<u32> = Vec::new();
        let sharing_mode: SharingMode;
        if self.multiple_queue_families {
            queue_family_indices.push(self.graphics_queue_family_index);
            if self.graphics_queue_family_index != self.compute_queue_family_index {
                queue_family_indices.push(self.compute_queue_family_index);
            }
            if self.graphics_queue_family_index != self.transfer_queue_family_index
                && self.compute_queue_family_index != self.transfer_queue_family_index {
                queue_family_indices.push(self.transfer_queue_family_index);
            }
            sharing_mode = SharingMode::Concurrent;
            proof {
                assert(queue_family_indices@ =~= self.spec_shared_queue_families());
            }
        } else {
            sharing_mode = SharingMode::Exclusive;
        }
        BufferCreateDesc {
            size: create_info.size,
            usage: create_info.usage,
            sharing_mode,
            queue_family_indices,
        }
    }
}

} // verus!
