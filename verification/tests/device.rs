use hot::buffer::BufferCreateInfo;
use hot::buffer::BufferUsageDomain;
use hot::device::allocation_in_pool_desc;
use hot::device::allocation_info_from_buffer_create_info;
use hot::device::upload_capable_create_info;
use hot::device::QueueTopology;
use hot::device::SharingMode;
use hot::flags;
use hot::gateway::AllocatorPoolId;
use hot::gateway::MemoryTypes;

fn info(domain: BufferUsageDomain) -> BufferCreateInfo {
    BufferCreateInfo { domain, size: 1024, usage: flags::BUFFER_USAGE_UNIFORM_BUFFER }
}

#[test]
fn allocation_desc_per_domain() {
    let device = allocation_info_from_buffer_create_info(info(BufferUsageDomain::Device));
    assert!(device.mapped);
    assert_eq!(device.required_flags, flags::MEMORY_PROPERTY_DEVICE_LOCAL);
    assert_eq!(device.preferred_flags, 0);
    assert!(device.pool.is_none());

    let dynamic = allocation_info_from_buffer_create_info(info(BufferUsageDomain::DeviceDynamic));
    assert_eq!(dynamic.required_flags, flags::MEMORY_PROPERTY_DEVICE_LOCAL);
    assert_eq!(dynamic.preferred_flags, flags::MEMORY_PROPERTY_HOST_VISIBLE);

    let host = allocation_info_from_buffer_create_info(info(BufferUsageDomain::Host));
    assert_eq!(host.required_flags, flags::MEMORY_PROPERTY_HOST_VISIBLE);
    assert_eq!(host.preferred_flags, 0);

    let readback = allocation_info_from_buffer_create_info(info(BufferUsageDomain::Readback));
    assert_eq!(
        readback.required_flags,
        flags::MEMORY_PROPERTY_HOST_VISIBLE | flags::MEMORY_PROPERTY_HOST_CACHED
    );
}

#[test]
fn pool_allocation_desc_names_the_pool() {
    let desc = allocation_in_pool_desc(AllocatorPoolId { id: 9 });
    assert!(desc.mapped);
    assert_eq!(desc.required_flags, 0);
    assert_eq!(desc.pool, Some(AllocatorPoolId { id: 9 }));
}

#[test]
fn upload_usage_added_outside_host_memory() {
    let device = upload_capable_create_info(info(BufferUsageDomain::Device));
    assert_eq!(
        device.usage,
        flags::BUFFER_USAGE_UNIFORM_BUFFER | flags::BUFFER_USAGE_TRANSFER_DST
    );
    let host = upload_capable_create_info(info(BufferUsageDomain::Host));
    assert_eq!(host.usage, flags::BUFFER_USAGE_UNIFORM_BUFFER);
}

#[test]
fn single_queue_family_is_exclusive() {
    let topology = QueueTopology {
        multiple_queue_families: false,
        graphics_queue_family_index: 0,
        compute_queue_family_index: 0,
        transfer_queue_family_index: 0,
    };
    let desc = topology.raw_buffer_create_info(info(BufferUsageDomain::Host));
    assert_eq!(desc.size, 1024);
    assert_eq!(desc.usage, flags::BUFFER_USAGE_UNIFORM_BUFFER);
    assert_eq!(desc.sharing_mode, SharingMode::Exclusive);
    assert!(desc.queue_family_indices.is_empty());
}

#[test]
fn distinct_queue_families_are_listed_once_each() {
    let topology = QueueTopology {
        multiple_queue_families: true,
        graphics_queue_family_index: 0,
        compute_queue_family_index: 1,
        transfer_queue_family_index: 2,
    };
    let desc = topology.raw_buffer_create_info(info(BufferUsageDomain::Host));
    assert_eq!(desc.sharing_mode, SharingMode::Concurrent);
    assert_eq!(desc.queue_family_indices, vec![0, 1, 2]);
}

#[test]
fn coinciding_queue_families_are_deduplicated() {
    let topology = QueueTopology {
        multiple_queue_families: true,
        graphics_queue_family_index: 0,
        compute_queue_family_index: 0,
        transfer_queue_family_index: 2,
    };
    let desc = topology.raw_buffer_create_info(info(BufferUsageDomain::Host));
    assert_eq!(desc.queue_family_indices, vec![0, 2]);

    let all_same = QueueTopology {
        multiple_queue_families: true,
        graphics_queue_family_index: 3,
        compute_queue_family_index: 3,
        transfer_queue_family_index: 3,
    };
    let desc = all_same.raw_buffer_create_info(info(BufferUsageDomain::Host));
    assert_eq!(desc.queue_family_indices, vec![3]);
}

#[test]
fn memory_type_classification() {
    let types = MemoryTypes {
        property_flags: vec![
            flags::MEMORY_PROPERTY_DEVICE_LOCAL,
            flags::MEMORY_PROPERTY_HOST_VISIBLE | flags::MEMORY_PROPERTY_HOST_COHERENT,
            flags::MEMORY_PROPERTY_DEVICE_LOCAL | flags::MEMORY_PROPERTY_HOST_VISIBLE,
        ],
    };
    assert!(!types.is_memory_type_host_visible(0));
    assert!(types.is_memory_type_host_visible(1));
    assert!(types.is_memory_type_host_visible(2));
    assert!(types.is_memory_type_device_local(0));
    assert!(!types.is_memory_type_device_local(1));
    assert!(types.is_memory_type_device_local(2));
}
