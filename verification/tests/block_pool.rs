use hot::buffer_block::pool_buffer_create_info;
use hot::buffer_block::staging_pool_buffer_create_info;
use hot::buffer_block::BlockRecycleError;
use hot::buffer_block::BlockRequest;
use hot::buffer_block::BufferBlock;
use hot::buffer_block::BufferBlockPool;
use hot::buffer::BufferUsageDomain;
use hot::flags;
use hot::gateway::AllocationInfo;
use hot::gateway::AllocatorPoolId;
use hot::gateway::GatewayAllocation;
use hot::gateway::PoolCreateDesc;

/// A stand-in for the device allocation gateway that counts what it is
/// asked to create.
struct FakeGateway {
    pool_creations: usize,
    buffer_creations: usize,
    next_id: u64,
}

impl FakeGateway {
    fn new() -> FakeGateway {
        FakeGateway { pool_creations: 0, buffer_creations: 0, next_id: 1 }
    }

    fn create_pool(&mut self, desc: &PoolCreateDesc) -> AllocatorPoolId {
        assert!(desc.linear);
        assert_eq!(desc.min_block_count, 1);
        assert_eq!(desc.max_block_count, 1);
        self.pool_creations += 1;
        let id = self.next_id;
        self.next_id += 1;
        AllocatorPoolId { id }
    }

    fn create_buffer(&mut self, size: u64, mapped: bool) -> GatewayAllocation {
        self.buffer_creations += 1;
        let id = self.next_id;
        self.next_id += 1;
        GatewayAllocation {
            buffer: id,
            allocation: id + 1000,
            info: AllocationInfo {
                offset: 0,
                size,
                mapped_ptr: if mapped { 0x1000 + id } else { 0 },
            },
        }
    }
}

/// Drive one full request through the gateway: reuse a recycled block if
/// the pool offers one, otherwise create the planned pools and admit a
/// fresh block.
fn request(pool: &mut BufferBlockPool, gateway: &mut FakeGateway, min_size: u64) -> BufferBlock {
    match pool.request_block(min_size) {
        BlockRequest::Reused(handle) => handle,
        BlockRequest::Allocate(plan) => {
            let gpu = gateway.create_pool(&plan.gpu);
            let cpu = plan.cpu.as_ref().map(|desc| gateway.create_pool(desc));
            pool.allocate_block(gpu, cpu, min_size, None)
        },
    }
}

/// A vertex-buffer pool whose device memory type is not host-visible, so
/// every buffer gets a staging pair.
fn staged_pool(uuid: u64) -> BufferBlockPool {
    BufferBlockPool::new(
        uuid,
        65536,
        flags::BUFFER_USAGE_VERTEX_BUFFER,
        true,
        2,
        false,
        Some(4),
    )
}

#[test]
fn pool_construction_adjusts_domain_and_usage() {
    let pool = staged_pool(1);
    assert_eq!(pool.domain, BufferUsageDomain::DeviceDynamic);
    assert_eq!(
        pool.usage,
        flags::BUFFER_USAGE_VERTEX_BUFFER | flags::BUFFER_USAGE_TRANSFER_DST
    );
    let host_pool = BufferBlockPool::new(2, 4096, flags::BUFFER_USAGE_TRANSFER_SRC, false, 1, true, None);
    assert_eq!(host_pool.domain, BufferUsageDomain::Host);
    assert_eq!(host_pool.usage, flags::BUFFER_USAGE_TRANSFER_SRC);
}

#[test]
fn pool_create_infos_follow_the_device_local_choice() {
    let device_local = pool_buffer_create_info(65536, flags::BUFFER_USAGE_VERTEX_BUFFER, true);
    assert_eq!(device_local.domain, BufferUsageDomain::DeviceDynamic);
    assert_eq!(
        device_local.usage,
        flags::BUFFER_USAGE_VERTEX_BUFFER | flags::BUFFER_USAGE_TRANSFER_DST
    );
    assert_eq!(device_local.size, 65536);

    let host = pool_buffer_create_info(4096, flags::BUFFER_USAGE_TRANSFER_SRC, false);
    assert_eq!(host.domain, BufferUsageDomain::Host);
    assert_eq!(host.usage, flags::BUFFER_USAGE_TRANSFER_SRC);

    let staging = staging_pool_buffer_create_info(65536);
    assert_eq!(staging.domain, BufferUsageDomain::Host);
    assert_eq!(staging.usage, flags::BUFFER_USAGE_TRANSFER_SRC);
    assert_eq!(staging.size, 65536);
}

#[test]
fn vertex_block_round_trip_reuses_the_same_block() {
    // Pool with a 65536-byte default block size, vertex-buffer usage.
    let mut gateway = FakeGateway::new();
    let mut pool = staged_pool(7);

    // request_block(1024): nothing to recycle, so a fresh block A is
    // allocated — one device pool and one staging pool.
    let block_a = request(&mut pool, &mut gateway, 1024);
    assert_eq!(gateway.pool_creations, 2);
    let gpu_pool_of_a = pool.get_block(block_a).unwrap().gpu;

    // allocate_buffer(256) twice on A: two valid, distinct handles.
    let gpu1 = gateway.create_buffer(256, false);
    let cpu1 = gateway.create_buffer(256, true);
    let buf1 = pool
        .allocate_buffer_in_block(block_a, gpu1, Some(cpu1), 256, None)
        .unwrap();
    let gpu2 = gateway.create_buffer(256, false);
    let cpu2 = gateway.create_buffer(256, true);
    let buf2 = pool
        .allocate_buffer_in_block(block_a, gpu2, Some(cpu2), 256, None)
        .unwrap();
    assert_ne!(buf1, buf2);
    {
        let block = pool.get_block(block_a).unwrap();
        assert_eq!(block.allocated_buffers.len(), 4);
        let one = block.get_gpu_buffer(buf1).unwrap();
        assert_eq!(one.create_info.size, 256);
        assert_eq!(one.create_info.domain, BufferUsageDomain::DeviceDynamic);
        let two = block.get_gpu_buffer(buf2).unwrap();
        assert_ne!(one.buffer, two.buffer);
    }

    // recycle_block(A) succeeds; A is now on the recycle list and every
    // drained record is handed back for explicit destruction.
    let drained = pool.recycle_block(block_a).unwrap();
    assert_eq!(drained.len(), 4);
    assert!(pool.get_block(block_a).is_none());

    // request_block(512) returns the same block by identity — its device
    // pools are the ones A had — with an empty buffer arena, and the
    // gateway was not asked for anything new.
    let block_b = request(&mut pool, &mut gateway, 512);
    assert_eq!(gateway.pool_creations, 2);
    let reused = pool.get_block(block_b).unwrap();
    assert_eq!(reused.gpu, gpu_pool_of_a);
    assert!(reused.allocated_buffers.is_empty());

    // The old block handle and the old buffer handles stay dead.
    assert!(pool.get_block(block_a).is_none());
    assert!(reused.get_gpu_buffer(buf1).is_none());

    // An oversized request on the same pool allocates a dedicated block
    // of exactly the requested size, which can only be destroyed, never
    // recycled.
    let oversized = request(&mut pool, &mut gateway, 200000);
    assert_eq!(gateway.pool_creations, 4);
    assert_eq!(pool.get_block(oversized).unwrap().size, 200000);
    assert_eq!(
        pool.recycle_block(oversized).unwrap_err(),
        BlockRecycleError::WrongSize
    );
    pool.destroy_block(oversized).unwrap().nodrop.destroy();
}

#[test]
fn oversized_request_allocates_dedicated_block_and_never_recycles() {
    let mut gateway = FakeGateway::new();
    let mut pool = staged_pool(9);

    // Even with a recycled block waiting, an oversized request allocates
    // a dedicated block.
    let small = request(&mut pool, &mut gateway, 100);
    pool.recycle_block(small).unwrap();
    assert_eq!(gateway.pool_creations, 2);

    match pool.request_block(200000) {
        BlockRequest::Reused(_) => panic!("an oversized request must not reuse"),
        BlockRequest::Allocate(plan) => {
            assert_eq!(plan.size, 200000);
            assert_eq!(plan.gpu.block_size, 200000);
        },
    }
    let block_b = request(&mut pool, &mut gateway, 200000);
    assert_eq!(gateway.pool_creations, 4);
    assert_eq!(pool.get_block(block_b).unwrap().size, 200000);

    // Put a buffer in it, then try to recycle: WrongSize, and the block
    // keeps its contents, un-reset.
    let gpu = gateway.create_buffer(64, false);
    let cpu = gateway.create_buffer(64, true);
    pool.allocate_buffer_in_block(block_b, gpu, Some(cpu), 64, None)
        .unwrap();
    let err = pool.recycle_block(block_b).unwrap_err();
    assert_eq!(err, BlockRecycleError::WrongSize);
    let block = pool.get_block(block_b).unwrap();
    assert_eq!(block.allocated_buffers.len(), 2);

    // The caller's way out is a permanent teardown: the pool hands the
    // block back whole, every record is destroyed explicitly, and the
    // handle is dead for good.
    let mut owned = pool.destroy_block(block_b).unwrap();
    let drained = owned.reset();
    assert_eq!(drained.len(), 2);
    for (_, record) in drained {
        record.destroy();
    }
    owned.nodrop.destroy();
    assert!(pool.get_block(block_b).is_none());
    assert!(pool.destroy_block(block_b).is_none());
    assert_eq!(pool.recycle_block(block_b).unwrap_err(), BlockRecycleError::AlreadyFreed);
}

#[test]
fn recycling_twice_fails_with_already_freed() {
    let mut gateway = FakeGateway::new();
    let mut pool = staged_pool(11);
    let block = request(&mut pool, &mut gateway, 1000);
    assert!(pool.recycle_block(block).is_ok());
    let err = pool.recycle_block(block).unwrap_err();
    assert_eq!(err, BlockRecycleError::AlreadyFreed);
}

#[test]
fn foreign_handle_fails_with_wrong_pool() {
    let mut gateway = FakeGateway::new();
    let mut pool_a = staged_pool(20);
    let mut pool_b = staged_pool(21);
    let block = request(&mut pool_a, &mut gateway, 100);
    let err = pool_b.recycle_block(block).unwrap_err();
    assert_eq!(err, BlockRecycleError::WrongPool);
    assert!(pool_b.get_block(block).is_none());
    assert!(pool_b
        .allocate_buffer_in_block(block, gateway.create_buffer(8, false), Some(gateway.create_buffer(8, true)), 8, None)
        .is_none());
}

#[test]
fn staging_presence_follows_host_visibility() {
    let mut gateway = FakeGateway::new();

    // Device memory the host cannot see: every allocation carries a
    // staging pair.
    let mut staged = staged_pool(30);
    let block = request(&mut staged, &mut gateway, 128);
    assert!(staged.get_block(block).unwrap().requires_upload());
    let gpu = gateway.create_buffer(128, false);
    let cpu = gateway.create_buffer(128, true);
    let handle = staged
        .allocate_buffer_in_block(block, gpu, Some(cpu), 128, None)
        .unwrap();
    assert!(handle.cpu_idx.is_some());
    {
        let owned = staged.get_block(block).unwrap();
        let staging = owned.get_cpu_buffer(handle).unwrap();
        assert_eq!(staging.create_info.domain, BufferUsageDomain::Host);
        assert_eq!(staging.create_info.usage, flags::BUFFER_USAGE_TRANSFER_SRC);
        assert!(staging.mapped_data.is_some());
    }

    // Host-visible memory: no staging pair at all.
    let mut visible = BufferBlockPool::new(31, 65536, flags::BUFFER_USAGE_VERTEX_BUFFER, false, 1, true, None);
    let block = request(&mut visible, &mut gateway, 128);
    assert!(!visible.get_block(block).unwrap().requires_upload());
    let gpu = gateway.create_buffer(128, true);
    let handle = visible
        .allocate_buffer_in_block(block, gpu, None, 128, None)
        .unwrap();
    assert!(handle.cpu_idx.is_none());
    let owned = visible.get_block(block).unwrap();
    assert!(owned.get_cpu_buffer(handle).is_none());
    assert!(owned.get_gpu_buffer(handle).unwrap().mapped_data.is_some());
}

#[test]
fn identical_gateway_payloads_still_get_distinct_handles() {
    // Handle identity comes from the block's arena, not from the raw
    // device handles: even two byte-identical gateway results are two
    // live records under two distinct handles.
    let mut gateway = FakeGateway::new();
    let mut pool = staged_pool(32);
    let block = request(&mut pool, &mut gateway, 64);
    let payload = gateway.create_buffer(64, false);
    let staging = gateway.create_buffer(64, true);
    let first = pool
        .allocate_buffer_in_block(block, payload, Some(staging), 64, None)
        .unwrap();
    let second = pool
        .allocate_buffer_in_block(block, payload, Some(staging), 64, None)
        .unwrap();
    assert_ne!(first.gpu_idx, second.gpu_idx);
    assert_ne!(first.cpu_idx, second.cpu_idx);
    let owned = pool.get_block(block).unwrap();
    assert_eq!(owned.allocated_buffers.len(), 4);
    assert_eq!(
        owned.get_gpu_buffer(first).unwrap().buffer,
        owned.get_gpu_buffer(second).unwrap().buffer
    );
}

#[test]
fn block_and_buffer_can_be_mutated_in_place() {
    let mut gateway = FakeGateway::new();
    let mut pool = staged_pool(33);
    let block = request(&mut pool, &mut gateway, 64);
    let gpu = gateway.create_buffer(64, false);
    let cpu = gateway.create_buffer(64, true);
    let handle = pool
        .allocate_buffer_in_block(block, gpu, Some(cpu), 64, None)
        .unwrap();

    let owned = pool.get_block_mut(block);
    owned.get_gpu_buffer_mut(handle).tag = Some(hot::nodrop::Tag::Static("written"));
    owned.get_cpu_buffer_mut(handle).tag = Some(hot::nodrop::Tag::Static("staged"));

    let owned = pool.get_block(block).unwrap();
    assert_eq!(
        owned.get_gpu_buffer(handle).unwrap().tag.as_ref().unwrap().as_str(),
        "written"
    );
    assert_eq!(
        owned.get_cpu_buffer(handle).unwrap().tag.as_ref().unwrap().as_str(),
        "staged"
    );
}

#[test]
fn allocation_tag_lands_on_both_records() {
    let mut gateway = FakeGateway::new();
    let mut pool = staged_pool(35);
    let block = request(&mut pool, &mut gateway, 64);
    let gpu = gateway.create_buffer(64, false);
    let cpu = gateway.create_buffer(64, true);
    let handle = pool
        .allocate_buffer_in_block(
            block,
            gpu,
            Some(cpu),
            64,
            Some(hot::nodrop::Tag::Static("particle mesh")),
        )
        .unwrap();
    let owned = pool.get_block(block).unwrap();
    let device_side = owned.get_gpu_buffer(handle).unwrap();
    assert_eq!(device_side.tag.as_ref().unwrap().as_str(), "particle mesh");
    let staging_side = owned.get_cpu_buffer(handle).unwrap();
    assert_eq!(staging_side.tag.as_ref().unwrap().as_str(), "particle mesh");
}

#[test]
fn reset_block_empties_in_place() {
    let mut gateway = FakeGateway::new();
    let mut pool = staged_pool(40);
    let block = request(&mut pool, &mut gateway, 64);
    let gpu = gateway.create_buffer(64, false);
    let cpu = gateway.create_buffer(64, true);
    let handle = pool
        .allocate_buffer_in_block(block, gpu, Some(cpu), 64, None)
        .unwrap();

    let drained = pool.reset_block(block).unwrap();
    assert_eq!(drained.len(), 2);

    // The block is still checked out, empty, and the old buffer handle no
    // longer resolves.
    let owned = pool.get_block(block).unwrap();
    assert!(owned.allocated_buffers.is_empty());
    assert!(owned.get_gpu_buffer(handle).is_none());
}

#[test]
fn request_block_plan_asks_for_the_default_size_at_least() {
    let pool = staged_pool(50);
    let plan = pool.block_allocation_plan(100);
    assert_eq!(plan.size, 65536);
    assert_eq!(plan.gpu.memory_type_index, 2);
    let staging = plan.cpu.unwrap();
    assert_eq!(staging.memory_type_index, 4);
    assert_eq!(staging.block_size, 65536);
}
