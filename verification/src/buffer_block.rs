//! Blocks of transient buffers, and the pool that hands them out and
//! recycles them.
//!
//! A block is a fixed-capacity linear sub-allocator: one device-side
//! sub-allocator pool, an optional host-side staging pool, and an arena of
//! the buffers carved out of them. A block pool owns the checked-out
//! blocks of one usage class, keeps reset blocks on a recycle list, and
//! re-admits them instead of asking the device allocator for new memory.

use vstd::prelude::*;

use crate::arena::generations_grow;
use crate::arena::Arena;
use crate::arena::Handle;
use crate::buffer::Buffer;
use crate::buffer::BufferCreateInfo;
use crate::buffer::BufferUsageDomain;
use crate::flags::BUFFER_USAGE_TRANSFER_DST;
use crate::flags::BUFFER_USAGE_TRANSFER_SRC;
use crate::gateway::AllocatorPoolId;
use crate::gateway::GatewayAllocation;
use crate::gateway::GatewayError;
use crate::gateway::PoolCreateDesc;
use crate::nodrop::NoDrop;
use crate::nodrop::Tag;

verus! {

/// A handle to a block inside a pool: the pool's identity, so a foreign
/// handle is rejected, and the arena slot the block sits in.
#[derive(Clone, Copy, Debug, PartialEq, Eq, Structural, Hash)]
pub struct BufferBlock {
    /// Identity of the pool the block was checked out of.
    pub pool_uuid: u64,
    /// The arena slot the block lives in.
    pub idx: Handle,
}

/// A handle to a buffer allocated from a block. It names the owning
/// block — so a dereference against the wrong block, or after the block
/// was recycled, fails cleanly — the device-side buffer, and the paired
/// host-side staging buffer when one exists.
#[derive(Clone, Copy, Debug, PartialEq, Eq, Hash)]
pub struct BufferBlockBuffer {
    /// The block both buffers were carved from.
    pub block: BufferBlock,
    /// The device-side buffer's slot in the block's arena.
    pub gpu_idx: Handle,
    /// The staging buffer's slot, present exactly when the block pairs
    /// its buffers with host-side staging.
    pub cpu_idx: Option<Handle>,
}

/// An owned block: the sub-allocator pool(s) that back it and the arena
/// of every buffer that has been carved out of it. Carries the
/// explicit-destruction marker; it leaves its pool only through recycling
/// or an explicit teardown.
pub struct OwnedBufferBlock {
    /// The block's own handle, stamped once it is admitted to its pool's
    /// arena; cleared while it rests on the recycle list.
    pub self_id: Option<BufferBlock>,
    /// The device-side sub-allocator pool.
    pub gpu: AllocatorPoolId,
    /// The host-side staging sub-allocator pool, present exactly when the
    /// device-side memory type is not host-visible.
    pub cpu: Option<AllocatorPoolId>,
    /// Every buffer carved from this block.
    pub allocated_buffers: Arena<Buffer>,
    /// The usage all buffers in this block share.
    pub usage: u32,
    /// The domain all buffers in this block share.
    pub domain: BufferUsageDomain,
    /// Byte capacity of the block.
    pub size: u64,
    /// The explicit-destruction marker.
    pub nodrop: NoDrop,
}

/// What the staging buffer paired with a device-side buffer of `size`
/// bytes is created as: a host-visible transfer source.
pub open spec fn spec_staging_create_info(size: u64) -> BufferCreateInfo {
    BufferCreateInfo { domain: BufferUsageDomain::Host, size, usage: BUFFER_USAGE_TRANSFER_SRC }
}

impl OwnedBufferBlock {
    /// The block's buffer arena is internally consistent.
    pub open spec fn wf(&self) -> bool {
        self.allocated_buffers.wf()
    }

    /// Create a new owned block around freshly created (or recycled)
    /// sub-allocator pools.
    pub fn new(
        self_id: Option<BufferBlock>,
        gpu: AllocatorPoolId,
        cpu: Option<AllocatorPoolId>,
        allocated_buffers: Arena<Buffer>,
        usage: u32,
        domain: BufferUsageDomain,
        size: u64,
        tag: Option<Tag>,
    ) -> (r: OwnedBufferBlock)
        ensures
            r.self_id == self_id,
            r.gpu == gpu,
            r.cpu == cpu,
            r.allocated_buffers == allocated_buffers,
            r.usage == usage,
            r.domain == domain,
            r.size == size,
            tag matches Some(t) ==> r.nodrop.spec_tag() == t,
            tag is None ==> (r.nodrop.spec_tag() matches Tag::Static(s) && s@
                == "Generic OwnedBufferBlock"@),
    {
        OwnedBufferBlock {
            self_id,
            gpu,
            cpu,
            allocated_buffers,
            usage,
            domain,
            size,
            nodrop: match tag {
                Some(tag) => NoDrop::new(tag),
                None => NoDrop::from_str("Generic OwnedBufferBlock"),
            },
        }
    }

    /// Whether data written to this block's buffers must be uploaded to
    /// the device through their staging pairs: true exactly when the
    /// block carries a staging pool.
    pub fn requires_upload(&self) -> (r: bool)
        ensures
            r <==> self.cpu is Some,
    {
        self.cpu.is_some()
    }

    /// What a buffer of `size` bytes carved from this block is created
    /// as: the block's domain and usage.
    pub fn gpu_buffer_create_info(&self, size: u64) -> (r: BufferCreateInfo)
        ensures
            r == (BufferCreateInfo { domain: self.domain, size, usage: self.usage }),
    {
        BufferCreateInfo { domain: self.domain, size, usage: self.usage }
    }

    /// What the staging buffer paired with a device-side buffer of `size`
    /// bytes is created as.
    pub fn staging_buffer_create_info(&self, size: u64) -> (r: BufferCreateInfo)
        ensures
            r == spec_staging_create_info(size),
    {
        BufferCreateInfo {
            domain: BufferUsageDomain::Host,
            size,
            usage: BUFFER_USAGE_TRANSFER_SRC,
        }
    }

    /// Get a shared reference to the device-side buffer referenced by a
    /// `BufferBlockBuffer` created from this block. Returns nothing when
    /// the handle names another block, or a slot that no longer holds its
    /// buffer — never a panic, never another buffer.
    pub fn get_gpu_buffer(&self, buffer: BufferBlockBuffer) -> (r: Option<&Buffer>)
        ensures
            r is Some <==> self.self_id == Some(buffer.block) && self.allocated_buffers.resolves(
                buffer.gpu_idx,
            ),
            r matches Some(b) ==> self.allocated_buffers.spec_get(buffer.gpu_idx) == Some(*b),
    {
        match self.self_id {
            Some(id) => {
                if buffer.block == id {
                    self.allocated_buffers.get(buffer.gpu_idx)
                } else {
                    None
                }
            },
            None => None,
        }
    }

    /// Get a shared reference to the host-side staging buffer referenced
    /// by a `BufferBlockBuffer` created from this block, if there is one.
    pub fn get_cpu_buffer(&self, buffer: BufferBlockBuffer) -> (r: Option<&Buffer>)
        ensures
            r is Some <==> (self.self_id == Some(buffer.block) && (buffer.cpu_idx matches Some(c)
                && self.allocated_buffers.resolves(c))),
            r matches Some(b) ==> self.allocated_buffers.spec_get(buffer.cpu_idx.unwrap()) == Some(
                *b,
            ),
    {
        match self.self_id {
            Some(id) => {
                if buffer.block == id {
                    match buffer.cpu_idx {
                        Some(cpu_idx) => self.allocated_buffers.get(cpu_idx),
                        None => None,
                    }
                } else {
                    None
                }
            },
            None => None,
        }
    }

    /// Borrow the device-side buffer referenced by a `BufferBlockBuffer`
    /// for mutation in place. The caller must have checked, through
    /// `get_gpu_buffer`, that the handle names this block and still
    /// resolves.
    pub fn get_gpu_buffer_mut(&mut self, buffer: BufferBlockBuffer) -> (r: &mut Buffer)
        requires
            old(self).wf(),
            old(self).self_id == Some(buffer.block),
            old(self).allocated_buffers.resolves(buffer.gpu_idx),
        ensures
            final(self).wf(),
            Some(*r) == old(self).allocated_buffers.spec_get(buffer.gpu_idx),
            final(self).self_id == old(self).self_id,
            final(self).gpu == old(self).gpu,
            final(self).cpu == old(self).cpu,
            final(self).usage == old(self).usage,
            final(self).domain == old(self).domain,
            final(self).size == old(self).size,
            final(self).nodrop == old(self).nodrop,
            final(self).allocated_buffers.resolves(buffer.gpu_idx),
            final(self).allocated_buffers.spec_get(buffer.gpu_idx) == Some(*final(r)),
            final(self).allocated_buffers.spec_len() == old(self).allocated_buffers.spec_len(),
            final(self).allocated_buffers.n_slots() == old(self).allocated_buffers.n_slots(),
            forall|i: int|
                0 <= i < old(self).allocated_buffers.n_slots() ==> final(self).allocated_buffers.gen_at(i) == old(self).allocated_buffers.gen_at(i),
            forall|i: int|
                0 <= i < old(self).allocated_buffers.n_slots() && i != buffer.gpu_idx.index as int
                    ==> final(self).allocated_buffers.val_at(i) == old(self).allocated_buffers.val_at(i),
    {
        self.allocated_buffers.borrow_mut(buffer.gpu_idx)
    }

    /// Borrow the host-side staging buffer referenced by a
    /// `BufferBlockBuffer` for mutation in place. The caller must have
    /// checked, through `get_cpu_buffer`, that the handle names this
    /// block, carries a staging buffer, and still resolves.
    pub fn get_cpu_buffer_mut(&mut self, buffer: BufferBlockBuffer) -> (r: &mut Buffer)
        requires
            old(self).wf(),
            old(self).self_id == Some(buffer.block),
            buffer.cpu_idx is Some,
            old(self).allocated_buffers.resolves(buffer.cpu_idx.unwrap()),
        ensures
            final(self).wf(),
            Some(*r) == old(self).allocated_buffers.spec_get(buffer.cpu_idx.unwrap()),
            final(self).self_id == old(self).self_id,
            final(self).gpu == old(self).gpu,
            final(self).cpu == old(self).cpu,
            final(self).usage == old(self).usage,
            final(self).domain == old(self).domain,
            final(self).size == old(self).size,
            final(self).nodrop == old(self).nodrop,
            final(self).allocated_buffers.resolves(buffer.cpu_idx.unwrap()),
            final(self).allocated_buffers.spec_get(buffer.cpu_idx.unwrap()) == Some(*final(r)),
            final(self).allocated_buffers.spec_len() == old(self).allocated_buffers.spec_len(),
            final(self).allocated_buffers.n_slots() == old(self).allocated_buffers.n_slots(),
            forall|i: int|
                0 <= i < old(self).allocated_buffers.n_slots() ==> final(self).allocated_buffers.gen_at(i) == old(self).allocated_buffers.gen_at(i),
            forall|i: int|
                0 <= i < old(self).allocated_buffers.n_slots() && i
                    != buffer.cpu_idx.unwrap().index as int ==> final(self).allocated_buffers.val_at(i) == old(self).allocated_buffers.val_at(i),
    {
        let cpu_idx = match buffer.cpu_idx {
            Some(cpu_idx) => cpu_idx,
            None => unreached(),
        };
        self.allocated_buffers.borrow_mut(cpu_idx)
    }

    /// Record a buffer allocation the device gateway made from this
    /// block's pools: the device-side result, and the staging result
    /// exactly when the block carries a staging pool. The new records
    /// enter the block's arena atomically — both or, on the gateway's
    /// failure, neither, since the caller only gets here with both
    /// results in hand.
    pub fn allocate_buffer(
        &mut self,
        gpu: GatewayAllocation,
        cpu: Option<GatewayAllocation>,
        size: u64,
        tag: Option<Tag>,
    ) -> (r: BufferBlockBuffer)
        requires
            old(self).wf(),
            old(self).self_id is Some,
            cpu is Some <==> old(self).cpu is Some,
        ensures
            final(self).wf(),
            final(self).self_id == old(self).self_id,
            final(self).gpu == old(self).gpu,
            final(self).cpu == old(self).cpu,
            final(self).usage == old(self).usage,
            final(self).domain == old(self).domain,
            final(self).size == old(self).size,
            final(self).nodrop == old(self).nodrop,
            r.block == old(self).self_id.unwrap(),
            // both handles are fresh: no handle issued earlier names them
            !old(self).allocated_buffers.resolves(r.gpu_idx),
            r.cpu_idx matches Some(c) ==> !old(self).allocated_buffers.resolves(c),
            // the handle binds a device-side record carrying the block's
            // domain and usage
            final(self).allocated_buffers.resolves(r.gpu_idx),
            final(self).allocated_buffers.spec_get(r.gpu_idx) matches Some(b) && b.buffer
                == gpu.buffer && b.allocation == gpu.allocation && b.allocation_info == gpu.info
                && b.create_info == (BufferCreateInfo {
                domain: old(self).domain,
                size,
                usage: old(self).usage,
            }) && (b.mapped_data is Some <==> gpu.info.mapped_ptr != 0) && b.tag == tag,
            // and a staging record exactly when the block stages
            r.cpu_idx is Some <==> old(self).cpu is Some,
            r.cpu_idx matches Some(c) ==> c != r.gpu_idx && final(self).allocated_buffers.resolves(
                c,
            ) && (final(self).allocated_buffers.spec_get(c) matches Some(b) && b.buffer
                == cpu.unwrap().buffer && b.allocation == cpu.unwrap().allocation
                && b.allocation_info == cpu.unwrap().info && b.create_info
                == spec_staging_create_info(size) && (b.mapped_data is Some
                <==> cpu.unwrap().info.mapped_ptr != 0) && b.tag == tag),
            // nothing else in the arena moved
            generations_grow(old(self).allocated_buffers, final(self).allocated_buffers),
            forall|h2: Handle|
                old(self).allocated_buffers.resolves(h2)
                    ==> #[trigger] final(self).allocated_buffers.resolves(h2)
                    && final(self).allocated_buffers.spec_get(h2)
                    == old(self).allocated_buffers.spec_get(h2),
            final(self).allocated_buffers.spec_len() == old(self).allocated_buffers.spec_len() + (
            if old(self).cpu is Some {
                2int
            } else {
                1int
            }),
    {
        let create_info = BufferCreateInfo { size, usage: self.usage, domain: self.domain };
        let mapped_data = gpu.mapped_data();
        let gpu_tag = match &tag {
            Some(t) => Some(t.duplicate()),
            None => None,
        };
        let gpu_idx = self.allocated_buffers.insert(
            Buffer::new(gpu.buffer, gpu.allocation, gpu.info, create_info, mapped_data, gpu_tag),
        );

        let cpu_idx = match cpu {
            Some(cpu) => {
                let create_info = BufferCreateInfo {
                    domain: BufferUsageDomain::Host,
                    size,
                    usage: BUFFER_USAGE_TRANSFER_SRC,
                };
                let mapped_data = cpu.mapped_data();
                Some(
                    self.allocated_buffers.insert(
                        Buffer::new(
                            cpu.buffer,
                            cpu.allocation,
                            cpu.info,
                            create_info,
                            mapped_data,
                            tag,
                        ),
                    ),
                )
            },
            None => None,
        };

        BufferBlockBuffer { block: self.self_id.unwrap(), gpu_idx, cpu_idx }
    }

    /// Reset the block: drain its buffer arena, handing every buffer
    /// record back for explicit destruction. The sub-allocator pools
    /// themselves are kept — and so is the destruction marker with its
    /// diagnostic tag — so a reset block can be reused with no new device
    /// allocation; but no buffer handle issued before the reset resolves
    /// afterwards.
    pub fn reset(&mut self) -> (r: Vec<(Handle, Buffer)>)
        requires
            old(self).wf(),
        ensures
            final(self).wf(),
            final(self).self_id == old(self).self_id,
            final(self).gpu == old(self).gpu,
            final(self).cpu == old(self).cpu,
            final(self).usage == old(self).usage,
            final(self).domain == old(self).domain,
            final(self).size == old(self).size,
            final(self).nodrop == old(self).nodrop,
            final(self).allocated_buffers.spec_len() == 0,
            forall|h: Handle|
                old(self).allocated_buffers.resolves(h)
                    ==> #[trigger] final(self).allocated_buffers.stale(h),
            r@.len() == old(self).allocated_buffers.spec_len(),
            forall|k: int|
                0 <= k < r@.len() ==> old(self).allocated_buffers.resolves(#[trigger] r@[k].0)
                    && old(self).allocated_buffers.spec_get(r@[k].0) == Some(r@[k].1),
            forall|k1: int, k2: int|
                0 <= k1 < k2 < r@.len() ==> r@[k1].0.index != r@[k2].0.index,
            generations_grow(old(self).allocated_buffers, final(self).allocated_buffers),
    {
        self.allocated_buffers.drain()
    }
}

/// An error that could occur when attempting to recycle a block.
#[derive(Clone, Copy, Debug, PartialEq, Eq, Structural, Hash)]
pub enum BlockRecycleError {
    /// The block was not allocated from this pool.
    WrongPool,
    /// The block does not have the same size as the block size of the
    /// pool.
    WrongSize,
    /// The block was already either recycled or deleted.
    AlreadyFreed,
    /// There was an error while destroying a contained buffer.
    DestructionError(GatewayError),
}

/// What one fresh block costs: the resolved byte size and the
/// sub-allocator pool(s) the device gateway must create for it.
#[derive(Clone, Copy, Debug, PartialEq, Eq, Hash)]
pub struct BlockAllocationPlan {
    /// The size the block will be, never below the pool's default.
    pub size: u64,
    /// The device-side sub-allocator pool to create.
    pub gpu: PoolCreateDesc,
    /// The host-side staging pool to create, demanded exactly when the
    /// pool's device memory type is not host-visible.
    pub cpu: Option<PoolCreateDesc>,
}

/// The outcome of asking a pool for a block: either a recycled block was
/// re-admitted — no device allocation at all — or the caller must have
/// the gateway create the planned sub-allocator pools and hand them to
/// `allocate_block`.
#[derive(Clone, Copy, Debug, PartialEq, Eq, Hash)]
pub enum BlockRequest {
    /// A recycled block was re-admitted under this handle.
    Reused(BufferBlock),
    /// No recycled block can serve the request: the device gateway must
    /// create these pools first.
    Allocate(BlockAllocationPlan),
}

/// A pool of blocks sharing one usage class and domain. Blocks it hands
/// out either carry its fixed default size — and can be recycled — or a
/// larger one-off size for oversized requests, which can only be torn
/// down.
pub struct BufferBlockPool {
    /// This pool's identity; handles carrying another are rejected.
    pub uuid: u64,
    /// The checked-out blocks.
    pub owned_blocks: Arena<OwnedBufferBlock>,
    /// Reset blocks waiting to be handed out again.
    pub recycled_blocks: Vec<OwnedBufferBlock>,
    /// The device memory type every block's device-side pool uses,
    /// resolved once at construction.
    pub gpu_memory_type_index: u32,
    /// Whether that memory type is host-visible.
    pub gpu_host_visible: bool,
    /// The memory type for staging pools, present exactly when the
    /// device-side type is not host-visible.
    pub cpu_memory_type_index: Option<u32>,
    /// Whether the pool demands device-local memory.
    pub device_local: bool,
    /// The default byte size of the pool's blocks: the recycle size.
    pub block_size: u64,
    /// The domain every block of this pool carries.
    pub domain: BufferUsageDomain,
    /// The usage every block of this pool carries.
    pub usage: u32,
}

/// What the pool's device-side blocks are sized and used as, and the
/// domain they demand: device-dynamic with transfer-destination usage
/// when device-local memory is required, plain host memory otherwise.
/// This is the request whose memory type the gateway resolves before the
/// pool is constructed.
pub fn pool_buffer_create_info(
    block_size: u64,
    usage: u32,
    requires_device_local_memory: bool,
) -> (r: BufferCreateInfo)
    ensures
        r.size == block_size,
        requires_device_local_memory ==> r.domain == BufferUsageDomain::DeviceDynamic && r.usage
            == usage | BUFFER_USAGE_TRANSFER_DST,
        !requires_device_local_memory ==> r.domain == BufferUsageDomain::Host && r.usage == usage,
{
    if requires_device_local_memory {
        BufferCreateInfo {
            domain: BufferUsageDomain::DeviceDynamic,
            size: block_size,
            usage: usage | BUFFER_USAGE_TRANSFER_DST,
        }
    } else {
        BufferCreateInfo { domain: BufferUsageDomain::Host, size: block_size, usage }
    }
}

/// What the pool's staging pools are sized and used as, when the resolved
/// device memory type turns out not to be host-visible.
pub fn staging_pool_buffer_create_info(block_size: u64) -> (r: BufferCreateInfo)
    ensures
        r == spec_staging_create_info(block_size),
{
    BufferCreateInfo {
        domain: BufferUsageDomain::Host,
        size: block_size,
        usage: BUFFER_USAGE_TRANSFER_SRC,
    }
}

impl BufferBlockPool {
    /// Every block this pool holds — checked out or recycled — carries
    /// the pool's domain and usage and a staging pool exactly when the
    /// pool's device memory type is not host-visible; checked-out blocks
    /// are stamped with their own handle, at least as large as the
    /// default size; recycled blocks are unstamped, empty, and exactly
    /// the default size.
    pub open spec fn wf(&self) -> bool {
        &&& self.owned_blocks.wf()
        &&& (self.gpu_host_visible <==> self.cpu_memory_type_index is None)
        &&& forall|i: int|
            0 <= i < self.owned_blocks.n_slots() ==> ((#[trigger] self.owned_blocks.val_at(i))
                matches Some(b) ==> {
                &&& b.wf()
                &&& b.usage == self.usage
                &&& b.domain == self.domain
                &&& b.size >= self.block_size
                &&& (b.cpu is Some <==> self.cpu_memory_type_index is Some)
                &&& b.self_id == Some(
                    BufferBlock {
                        pool_uuid: self.uuid,
                        idx: Handle { index: i as usize, generation: self.owned_blocks.gen_at(i) },
                    },
                )
            })
        &&& forall|k: int|
            0 <= k < self.recycled_blocks@.len() ==> {
                let b = #[trigger] self.recycled_blocks@[k];
                &&& b.wf()
                &&& b.usage == self.usage
                &&& b.domain == self.domain
                &&& b.size == self.block_size
                &&& (b.cpu is Some <==> self.cpu_memory_type_index is Some)
                &&& b.self_id is None
                &&& b.allocated_buffers.spec_len() == 0
            }
    }

    /// Create a new pool.
    ///
    /// The caller resolves, once, through the device gateway: the memory
    /// type for `pool_buffer_create_info(block_size, usage,
    /// requires_device_local_memory)`, whether that type is host-visible,
    /// and — exactly when it is not — a second memory type for
    /// `staging_pool_buffer_create_info(block_size)`. `uuid` must be a
    /// fresh pool identity.
    pub fn new(
        uuid: u64,
        block_size: u64,
        usage: u32,
        requires_device_local_memory: bool,
        gpu_memory_type_index: u32,
        gpu_host_visible: bool,
        cpu_memory_type_index: Option<u32>,
    ) -> (r: BufferBlockPool)
        requires
            gpu_host_visible <==> cpu_memory_type_index is None,
        ensures
            r.wf(),
            r.uuid == uuid,
            r.block_size == block_size,
            r.device_local == requires_device_local_memory,
            r.domain == if requires_device_local_memory {
                BufferUsageDomain::DeviceDynamic
            } else {
                BufferUsageDomain::Host
            },
            r.usage == if requires_device_local_memory {
                usage | BUFFER_USAGE_TRANSFER_DST
            } else {
                usage
            },
            r.gpu_memory_type_index == gpu_memory_type_index,
            r.gpu_host_visible == gpu_host_visible,
            r.cpu_memory_type_index == cpu_memory_type_index,
            r.owned_blocks.spec_len() == 0,
            r.owned_blocks.n_slots() == 0,
            r.recycled_blocks@.len() == 0,
    {
        let (domain, usage) = if requires_device_local_memory {
            (BufferUsageDomain::DeviceDynamic, usage | BUFFER_USAGE_TRANSFER_DST)
        } else {
            (BufferUsageDomain::Host, usage)
        };

        BufferBlockPool {
            uuid,
            owned_blocks: Arena::new(),
            recycled_blocks: Vec::new(),
            gpu_memory_type_index,
            gpu_host_visible,
            cpu_memory_type_index,
            device_local: requires_device_local_memory,
            block_size,
            domain,
            usage,
        }
    }

    /// Get a shared reference to the `OwnedBufferBlock` referenced by a
    /// `BufferBlock`. A handle from another pool, or one whose block has
    /// been recycled or torn down, yields nothing.
    pub fn get_block(&self, block: BufferBlock) -> (r: Option<&OwnedBufferBlock>)
        ensures
            r is Some <==> block.pool_uuid == self.uuid && self.owned_blocks.resolves(block.idx),
            r matches Some(b) ==> self.owned_blocks.spec_get(block.idx) == Some(*b),
    {
        if block.pool_uuid != self.uuid {
            return None;
        }
        self.owned_blocks.get(block.idx)
    }

    /// The size a block requested with `min_size` actually gets: the
    /// pool's default, unless the request is larger.
    pub open spec fn spec_resolved_block_size(&self, min_size: u64) -> u64 {
        if min_size <= self.block_size {
            self.block_size
        } else {
            min_size
        }
    }

    /// What allocating a fresh block for `min_size` asks the gateway for.
    pub open spec fn spec_block_allocation_plan(&self, min_size: u64) -> BlockAllocationPlan {
        let size = self.spec_resolved_block_size(min_size);
        BlockAllocationPlan {
            size,
            gpu: PoolCreateDesc {
                memory_type_index: self.gpu_memory_type_index,
                block_size: size,
                linear: true,
                min_block_count: 1,
                max_block_count: 1,
            },
            cpu: match self.cpu_memory_type_index {
                Some(cpu_index) => Some(
                    PoolCreateDesc {
                        memory_type_index: cpu_index,
                        block_size: size,
                        linear: true,
                        min_block_count: 1,
                        max_block_count: 1,
                    },
                ),
                None => None,
            },
        }
    }

    /// Compute what allocating a fresh block for `min_size` asks the
    /// gateway for.
    pub fn block_allocation_plan(&self, min_size: u64) -> (r: BlockAllocationPlan)
        ensures
            r == self.spec_block_allocation_plan(min_size),
    {
        let size = if min_size <= self.block_size {
            self.block_size
        } else {
            min_size
        };
        BlockAllocationPlan {
            size,
            gpu: PoolCreateDesc {
                memory_type_index: self.gpu_memory_type_index,
                block_size: size,
                linear: true,
                min_block_count: 1,
                max_block_count: 1,
            },
            cpu: match self.cpu_memory_type_index {
                Some(cpu_index) => Some(
                    PoolCreateDesc {
                        memory_type_index: cpu_index,
                        block_size: size,
                        linear: true,
                        min_block_count: 1,
                        max_block_count: 1,
                    },
                ),
                None => None,
            },
        }
    }

    /// Whether a request for `min_size` is served from the recycle list.
    pub open spec fn spec_can_reuse(&self, min_size: u64) -> bool {
        min_size <= self.block_size && self.recycled_blocks@.len() > 0
    }

    /// Request a block from the pool. A request that fits the default
    /// block size is served from the recycle list whenever a recycled
    /// block is waiting: the block is re-admitted to the live arena,
    /// stamped with its new handle, and no device allocation happens at
    /// all. Otherwise the returned plan says what the gateway must create
    /// for `allocate_block`.
    pub fn request_block(&mut self, min_size: u64) -> (r: BlockRequest)
        requires
            old(self).wf(),
        ensures
            final(self).wf(),
            final(self).uuid == old(self).uuid,
            final(self).block_size == old(self).block_size,
            final(self).usage == old(self).usage,
            final(self).domain == old(self).domain,
            final(self).gpu_memory_type_index == old(self).gpu_memory_type_index,
            final(self).gpu_host_visible == old(self).gpu_host_visible,
            final(self).cpu_memory_type_index == old(self).cpu_memory_type_index,
            final(self).device_local == old(self).device_local,
            r is Reused <==> old(self).spec_can_reuse(min_size),
            r matches BlockRequest::Reused(b) ==> {
                &&& b.pool_uuid == old(self).uuid
                &&& final(self).owned_blocks.resolves(b.idx)
                &&& (final(self).owned_blocks.spec_get(b.idx) matches Some(ob) && {
                    let last = old(self).recycled_blocks@.last();
                    &&& ob.self_id == Some(b)
                    &&& ob.gpu == last.gpu
                    &&& ob.cpu == last.cpu
                    &&& ob.size == last.size
                    &&& ob.usage == last.usage
                    &&& ob.domain == last.domain
                    &&& ob.allocated_buffers == last.allocated_buffers
                    &&& ob.allocated_buffers.spec_len() == 0
                })
                &&& final(self).recycled_blocks@ == old(self).recycled_blocks@.drop_last()
                &&& final(self).owned_blocks.spec_len() == old(self).owned_blocks.spec_len() + 1
                &&& generations_grow(old(self).owned_blocks, final(self).owned_blocks)
                &&& forall|h2: Handle|
                    old(self).owned_blocks.resolves(h2)
                        ==> #[trigger] final(self).owned_blocks.resolves(h2)
                        && final(self).owned_blocks.spec_get(h2)
                        == old(self).owned_blocks.spec_get(h2)
            },
            r matches BlockRequest::Allocate(plan) ==> plan == old(self).spec_block_allocation_plan(min_size)
                && *final(self) == *old(self),
    {
        if min_size <= self.block_size {
            if self.recycled_blocks.len() > 0 {
                let mut block = match self.recycled_blocks.pop() {
                    Some(block) => block,
                    None => unreached(),
                };
                let h = self.owned_blocks.next_handle();
                let bb = BufferBlock { pool_uuid: self.uuid, idx: h };
                block.self_id = Some(bb);
                self.owned_blocks.insert(block);
                return BlockRequest::Reused(bb);
            }
        }
        BlockRequest::Allocate(self.block_allocation_plan(min_size))
    }

    /// Admit a fresh block built around the sub-allocator pools the
    /// gateway created for this pool's plan: sized to the request but
    /// never below the pool's default, carrying the pool's usage and
    /// domain, stamped with its own handle, and starting empty. The
    /// recycle list is not consulted.
    pub fn allocate_block(
        &mut self,
        gpu_pool: AllocatorPoolId,
        cpu_pool: Option<AllocatorPoolId>,
        min_size: u64,
        tag: Option<Tag>,
    ) -> (r: BufferBlock)
        requires
            old(self).wf(),
            cpu_pool is Some <==> old(self).cpu_memory_type_index is Some,
        ensures
            final(self).wf(),
            final(self).uuid == old(self).uuid,
            final(self).block_size == old(self).block_size,
            final(self).usage == old(self).usage,
            final(self).domain == old(self).domain,
            final(self).gpu_memory_type_index == old(self).gpu_memory_type_index,
            final(self).gpu_host_visible == old(self).gpu_host_visible,
            final(self).cpu_memory_type_index == old(self).cpu_memory_type_index,
            final(self).device_local == old(self).device_local,
            final(self).recycled_blocks@ == old(self).recycled_blocks@,
            r.pool_uuid == old(self).uuid,
            final(self).owned_blocks.resolves(r.idx),
            final(self).owned_blocks.spec_get(r.idx) matches Some(b) && {
                &&& b.self_id == Some(r)
                &&& b.gpu == gpu_pool
                &&& b.cpu == cpu_pool
                &&& b.size == old(self).spec_resolved_block_size(min_size)
                &&& b.usage == old(self).usage
                &&& b.domain == old(self).domain
                &&& b.allocated_buffers.spec_len() == 0
                &&& b.allocated_buffers.n_slots() == 0
            },
            final(self).owned_blocks.spec_len() == old(self).owned_blocks.spec_len() + 1,
            generations_grow(old(self).owned_blocks, final(self).owned_blocks),
            forall|h2: Handle|
                old(self).owned_blocks.resolves(h2)
                    ==> #[trigger] final(self).owned_blocks.resolves(h2)
                    && final(self).owned_blocks.spec_get(h2)
                    == old(self).owned_blocks.spec_get(h2),
    {
        let block_size = if min_size <= self.block_size {
            self.block_size
        } else {
            min_size
        };

        let h = self.owned_blocks.next_handle();
        let bb = BufferBlock { pool_uuid: self.uuid, idx: h };
        let block = OwnedBufferBlock::new(
            Some(bb),
            gpu_pool,
            cpu_pool,
            Arena::new(),
            self.usage,
            self.domain,
            block_size,
            tag,
        );
        self.owned_blocks.insert(block);
        bb
    }

    /// Why recycling `block` fails, if it does: a handle from another
    /// pool is rejected first; one that no longer resolves — recycled or
    /// torn down already — next; and a block not sized to the pool's
    /// default is never recycled.
    pub open spec fn spec_recycle_check(&self, block: BufferBlock) -> Option<BlockRecycleError> {
        if block.pool_uuid != self.uuid {
            Some(BlockRecycleError::WrongPool)
        } else if !self.owned_blocks.resolves(block.idx) {
            Some(BlockRecycleError::AlreadyFreed)
        } else if (self.owned_blocks.spec_get(block.idx) matches Some(b) && b.size
            != self.block_size) {
            Some(BlockRecycleError::WrongSize)
        } else {
            None
        }
    }

    /// Attempt to recycle a block.
    ///
    /// `block` must have been checked out of this pool and carry the
    /// pool's default block size; otherwise the call fails with the
    /// matching error and changes nothing — a rejected block keeps its
    /// contents. On success the block is reset, its drained buffer
    /// records are handed back for explicit destruction, its identity is
    /// cleared, and it joins the recycle list; the handle — every copy of
    /// it — is stale from here on.
    pub fn recycle_block(&mut self, block: BufferBlock) -> (r: Result<
        Vec<(Handle, Buffer)>,
        BlockRecycleError,
    >)
        requires
            old(self).wf(),
        ensures
            final(self).wf(),
            final(self).uuid == old(self).uuid,
            final(self).block_size == old(self).block_size,
            final(self).usage == old(self).usage,
            final(self).domain == old(self).domain,
            final(self).gpu_memory_type_index == old(self).gpu_memory_type_index,
            final(self).gpu_host_visible == old(self).gpu_host_visible,
            final(self).cpu_memory_type_index == old(self).cpu_memory_type_index,
            final(self).device_local == old(self).device_local,
            r is Err <==> old(self).spec_recycle_check(block) is Some,
            r matches Err(e) ==> Some(e) == old(self).spec_recycle_check(block) && *final(self)
                == *old(self),
            r matches Ok(drained) ==> {
                let ob = old(self).owned_blocks.spec_get(block.idx)->0;
                &&& final(self).owned_blocks.stale(block.idx)
                &&& !final(self).owned_blocks.resolves(block.idx)
                &&& final(self).owned_blocks.spec_len() == old(self).owned_blocks.spec_len() - 1
                &&& final(self).recycled_blocks@.len() == old(self).recycled_blocks@.len() + 1
                &&& final(self).recycled_blocks@.drop_last() == old(self).recycled_blocks@
                &&& {
                    let back = final(self).recycled_blocks@.last();
                    &&& back.self_id is None
                    &&& back.gpu == ob.gpu
                    &&& back.cpu == ob.cpu
                    &&& back.size == ob.size
                    &&& back.usage == ob.usage
                    &&& back.domain == ob.domain
                    &&& back.nodrop == ob.nodrop
                    &&& back.allocated_buffers.spec_len() == 0
                }
                &&& drained@.len() == ob.allocated_buffers.spec_len()
                &&& forall|k: int|
                    0 <= k < drained@.len() ==> ob.allocated_buffers.resolves(
                        #[trigger] drained@[k].0,
                    ) && ob.allocated_buffers.spec_get(drained@[k].0) == Some(drained@[k].1)
                &&& forall|k1: int, k2: int|
                    0 <= k1 < k2 < drained@.len() ==> drained@[k1].0.index != drained@[k2].0.index
                &&& generations_grow(old(self).owned_blocks, final(self).owned_blocks)
                &&& forall|h2: Handle|
                    h2.index != block.idx.index && old(self).owned_blocks.resolves(h2)
                        ==> #[trigger] final(self).owned_blocks.resolves(h2)
                        && final(self).owned_blocks.spec_get(h2)
                        == old(self).owned_blocks.spec_get(h2)
            },
    {
        if block.pool_uuid != self.uuid {
            return Err(BlockRecycleError::WrongPool);
        }

        match self.owned_blocks.get(block.idx) {
            Some(owned_block) => {
                if owned_block.size != self.block_size {
                    return Err(BlockRecycleError::WrongSize);
                }
            },
            None => {
                return Err(BlockRecycleError::AlreadyFreed);
            },
        }

        let mut owned_block = match self.owned_blocks.remove(block.idx) {
            Some(owned_block) => owned_block,
            None => unreached(),
        };
        let drained = owned_block.reset();
        owned_block.self_id = None;
        self.recycled_blocks.push(owned_block);

        Ok(drained)
    }

    /// What a block occupying slot `i` of this pool must look like for
    /// the pool to stay consistent: the pool's usage and domain, at least
    /// the default size, a staging pool exactly when the pool stages, and
    /// its own handle stamped inside it.
    pub open spec fn block_fits(&self, b: OwnedBufferBlock, i: int) -> bool {
        &&& b.wf()
        &&& b.usage == self.usage
        &&& b.domain == self.domain
        &&& b.size >= self.block_size
        &&& (b.cpu is Some <==> self.cpu_memory_type_index is Some)
        &&& b.self_id == Some(
            BufferBlock {
                pool_uuid: self.uuid,
                idx: Handle { index: i as usize, generation: self.owned_blocks.gen_at(i) },
            },
        )
    }

    /// Borrow the block behind a handle that is known to resolve, for
    /// mutation in place. The caller must have checked, through
    /// `get_block`, that the handle belongs to this pool and still
    /// resolves; and the pool is consistent again exactly when what the
    /// caller leaves behind still fits the slot — its identity, class and
    /// size untouched.
    pub fn get_block_mut(&mut self, block: BufferBlock) -> (r: &mut OwnedBufferBlock)
        requires
            old(self).wf(),
            block.pool_uuid == old(self).uuid,
            old(self).owned_blocks.resolves(block.idx),
        ensures
            Some(*r) == old(self).owned_blocks.spec_get(block.idx),
            final(self).uuid == old(self).uuid,
            final(self).block_size == old(self).block_size,
            final(self).usage == old(self).usage,
            final(self).domain == old(self).domain,
            final(self).gpu_memory_type_index == old(self).gpu_memory_type_index,
            final(self).gpu_host_visible == old(self).gpu_host_visible,
            final(self).cpu_memory_type_index == old(self).cpu_memory_type_index,
            final(self).device_local == old(self).device_local,
            final(self).recycled_blocks@ == old(self).recycled_blocks@,
            final(self).owned_blocks.resolves(block.idx),
            final(self).owned_blocks.spec_get(block.idx) == Some(*final(r)),
            final(self).owned_blocks.spec_len() == old(self).owned_blocks.spec_len(),
            final(self).owned_blocks.n_slots() == old(self).owned_blocks.n_slots(),
            forall|i: int|
                0 <= i < old(self).owned_blocks.n_slots() ==> final(self).owned_blocks.gen_at(i)
                    == old(self).owned_blocks.gen_at(i),
            forall|i: int|
                0 <= i < old(self).owned_blocks.n_slots() && i != block.idx.index as int ==> final(self).owned_blocks.val_at(i) == old(self).owned_blocks.val_at(i),
            final(self).block_fits(*final(r), block.idx.index as int) ==> final(self).wf(),
    {
        self.owned_blocks.borrow_mut(block.idx)
    }

    /// Permanently tear a block out of the pool: the terminal state of a
    /// block's lifecycle, the only exit for one that is oversized and so
    /// can never be recycled. The owned block is handed back whole, for
    /// the caller to reset, return its sub-allocator pools to the device,
    /// and consume its destruction marker. The handle — every copy of it
    /// — is stale from here on.
    pub fn destroy_block(&mut self, block: BufferBlock) -> (r: Option<OwnedBufferBlock>)
        requires
            old(self).wf(),
        ensures
            final(self).wf(),
            final(self).uuid == old(self).uuid,
            final(self).block_size == old(self).block_size,
            final(self).usage == old(self).usage,
            final(self).domain == old(self).domain,
            final(self).gpu_memory_type_index == old(self).gpu_memory_type_index,
            final(self).gpu_host_visible == old(self).gpu_host_visible,
            final(self).cpu_memory_type_index == old(self).cpu_memory_type_index,
            final(self).device_local == old(self).device_local,
            final(self).recycled_blocks@ == old(self).recycled_blocks@,
            r is Some <==> block.pool_uuid == old(self).uuid && old(self).owned_blocks.resolves(
                block.idx,
            ),
            r is None ==> *final(self) == *old(self),
            r == (if block.pool_uuid == old(self).uuid {
                old(self).owned_blocks.spec_get(block.idx)
            } else {
                None
            }),
            r is Some ==> final(self).owned_blocks.stale(block.idx)
                && final(self).owned_blocks.spec_len() == old(self).owned_blocks.spec_len() - 1,
            generations_grow(old(self).owned_blocks, final(self).owned_blocks),
    {
        if block.pool_uuid != self.uuid {
            return None;
        }
        self.owned_blocks.remove(block.idx)
    }

    /// Allocate a buffer from a checked-out block of this pool: record
    /// the device-side gateway result, and the staging result exactly
    /// when this pool stages, in the block's arena. A handle from another
    /// pool, or one whose block is gone, yields nothing and changes
    /// nothing.
    pub fn allocate_buffer_in_block(
        &mut self,
        block: BufferBlock,
        gpu: GatewayAllocation,
        cpu: Option<GatewayAllocation>,
        size: u64,
        tag: Option<Tag>,
    ) -> (r: Option<BufferBlockBuffer>)
        requires
            old(self).wf(),
            cpu is Some <==> old(self).cpu_memory_type_index is Some,
        ensures
            final(self).wf(),
            final(self).uuid == old(self).uuid,
            final(self).block_size == old(self).block_size,
            final(self).usage == old(self).usage,
            final(self).domain == old(self).domain,
            final(self).gpu_memory_type_index == old(self).gpu_memory_type_index,
            final(self).gpu_host_visible == old(self).gpu_host_visible,
            final(self).cpu_memory_type_index == old(self).cpu_memory_type_index,
            final(self).device_local == old(self).device_local,
            final(self).recycled_blocks@ == old(self).recycled_blocks@,
            r is Some <==> block.pool_uuid == old(self).uuid && old(self).owned_blocks.resolves(
                block.idx,
            ),
            r is None ==> *final(self) == *old(self),
            r matches Some(bb) ==> {
                let ob = old(self).owned_blocks.spec_get(block.idx)->0;
                &&& bb.block == block
                &&& (bb.cpu_idx is Some <==> old(self).cpu_memory_type_index is Some)
                &&& final(self).owned_blocks.resolves(block.idx)
                &&& !ob.allocated_buffers.resolves(bb.gpu_idx)
                &&& (bb.cpu_idx matches Some(c) ==> !ob.allocated_buffers.resolves(c))
                &&& (final(self).owned_blocks.spec_get(block.idx) matches Some(nb) && {
                    &&& nb.self_id == ob.self_id
                    &&& nb.gpu == ob.gpu
                    &&& nb.cpu == ob.cpu
                    &&& nb.size == ob.size
                    &&& nb.nodrop == ob.nodrop
                    &&& nb.allocated_buffers.resolves(bb.gpu_idx)
                    &&& (nb.allocated_buffers.spec_get(bb.gpu_idx) matches Some(rec) && rec.buffer
                        == gpu.buffer && rec.allocation == gpu.allocation && rec.create_info == (
                    BufferCreateInfo {
                        domain: old(self).domain,
                        size,
                        usage: old(self).usage,
                    }) && (rec.mapped_data is Some <==> gpu.info.mapped_ptr != 0))
                    &&& (bb.cpu_idx matches Some(c) ==> c != bb.gpu_idx
                        && nb.allocated_buffers.resolves(c) && (nb.allocated_buffers.spec_get(c)
                        matches Some(rec) && rec.buffer == cpu.unwrap().buffer && rec.allocation
                        == cpu.unwrap().allocation && rec.create_info == spec_staging_create_info(
                        size,
                    ) && (rec.mapped_data is Some <==> cpu.unwrap().info.mapped_ptr != 0)))
                    &&& nb.allocated_buffers.spec_len() == ob.allocated_buffers.spec_len() + (
                    if ob.cpu is Some {
                        2int
                    } else {
                        1int
                    })
                })
            },
    {
        if block.pool_uuid != self.uuid {
            return None;
        }
        match self.owned_blocks.get(block.idx) {
            Some(_) => {},
            None => {
                return None;
            },
        }
        let owned_block = self.owned_blocks.borrow_mut(block.idx);
        let bb = owned_block.allocate_buffer(gpu, cpu, size, tag);
        Some(bb)
    }

    /// Reset a checked-out block of this pool in place: drain its buffer
    /// arena, handing every record back for explicit destruction. The
    /// block stays checked out, keeps its identity and its sub-allocator
    /// pools, and is empty afterwards; no buffer handle issued before the
    /// reset resolves against it again.
    pub fn reset_block(&mut self, block: BufferBlock) -> (r: Option<Vec<(Handle, Buffer)>>)
        requires
            old(self).wf(),
        ensures
            final(self).wf(),
            final(self).uuid == old(self).uuid,
            final(self).block_size == old(self).block_size,
            final(self).usage == old(self).usage,
            final(self).domain == old(self).domain,
            final(self).gpu_memory_type_index == old(self).gpu_memory_type_index,
            final(self).gpu_host_visible == old(self).gpu_host_visible,
            final(self).cpu_memory_type_index == old(self).cpu_memory_type_index,
            final(self).device_local == old(self).device_local,
            final(self).recycled_blocks@ == old(self).recycled_blocks@,
            r is Some <==> block.pool_uuid == old(self).uuid && old(self).owned_blocks.resolves(
                block.idx,
            ),
            r is None ==> *final(self) == *old(self),
            r matches Some(drained) ==> {
                let ob = old(self).owned_blocks.spec_get(block.idx)->0;
                &&& final(self).owned_blocks.resolves(block.idx)
                &&& (final(self).owned_blocks.spec_get(block.idx) matches Some(nb) && {
                    &&& nb.self_id == ob.self_id
                    &&& nb.gpu == ob.gpu
                    &&& nb.cpu == ob.cpu
                    &&& nb.size == ob.size
                    &&& nb.nodrop == ob.nodrop
                    &&& nb.allocated_buffers.spec_len() == 0
                    &&& forall|h: Handle|
                        ob.allocated_buffers.resolves(h)
                            ==> #[trigger] nb.allocated_buffers.stale(h)
                })
                &&& drained@.len() == ob.allocated_buffers.spec_len()
                &&& forall|k: int|
                    0 <= k < drained@.len() ==> ob.allocated_buffers.resolves(
                        #[trigger] drained@[k].0,
                    ) && ob.allocated_buffers.spec_get(drained@[k].0) == Some(drained@[k].1)
                &&& forall|k1: int, k2: int|
                    0 <= k1 < k2 < drained@.len() ==> drained@[k1].0.index != drained@[k2].0.index
            },
    {
        if block.pool_uuid != self.uuid {
            return None;
        }
        match self.owned_blocks.get(block.idx) {
            Some(_) => {},
            None => {
                return None;
            },
        }
        let owned_block = self.owned_blocks.borrow_mut(block.idx);
        let drained = owned_block.reset();
        Some(drained)
    }
}

/// Law: an attempt to recycle the same handle twice fails the second
/// time with `AlreadyFreed`. A successful recycle leaves the handle
/// unresolvable in the pool it came from — its slot's generation has
/// moved on — and an unresolvable handle of the right pool is answered
/// `AlreadyFreed`.
pub proof fn lemma_second_recycle_already_freed(
    pre: BufferBlockPool,
    post: BufferBlockPool,
    block: BufferBlock,
)
    requires
        pre.spec_recycle_check(block) is None,
        post.uuid == pre.uuid,
        !post.owned_blocks.resolves(block.idx),
    ensures
        post.spec_recycle_check(block) == Some(BlockRecycleError::AlreadyFreed),
{
}

/// Law: a live block not sized to the pool's default is never recycled —
/// the check answers `WrongSize` — and since a failed `recycle_block`
/// changes nothing, the block keeps its contents, un-reset.
pub proof fn lemma_oversized_block_never_recycled(p: BufferBlockPool, block: BufferBlock)
    requires
        block.pool_uuid == p.uuid,
        p.owned_blocks.resolves(block.idx),
        p.owned_blocks.spec_get(block.idx) matches Some(b) && b.size != p.block_size,
    ensures
        p.spec_recycle_check(block) == Some(BlockRecycleError::WrongSize),
{
}

/// Law: right after a successful recycle the recycle list is non-empty,
/// so any request that fits the default block size is served by reuse:
/// `request_block` answers `Reused` and plans no device allocation.
pub proof fn lemma_request_after_recycle_reuses(
    pre: BufferBlockPool,
    post: BufferBlockPool,
    min_size: u64,
)
    requires
        post.recycled_blocks@.len() == pre.recycled_blocks@.len() + 1,
        post.block_size == pre.block_size,
        min_size <= post.block_size,
    ensures
        post.spec_can_reuse(min_size),
{
}

/// Law: a checked-out block carries a staging pool exactly when its
/// pool's device memory type is not host-visible. Together with
/// `allocate_buffer`'s promise that a staging handle is present exactly
/// when the block carries a staging pool: allocating from a block whose
/// device memory the host cannot see always yields a host-side handle,
/// and allocating from a host-visible one never does.
pub proof fn lemma_staging_follows_host_visibility(p: BufferBlockPool, block: BufferBlock)
    requires
        p.wf(),
        p.owned_blocks.resolves(block.idx),
    ensures
        p.owned_blocks.spec_get(block.idx) matches Some(b) && (b.cpu is Some
            <==> !p.gpu_host_visible),
{
    assert(p.owned_blocks.val_at(block.idx.index as int) is Some);
}

} // verus!
