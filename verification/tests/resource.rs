use hot::buffer::Buffer;
use hot::buffer::BufferCreateInfo;
use hot::buffer::BufferUsageDomain;
use hot::buffer::BufferView;
use hot::buffer::BufferViewCreateInfo;
use hot::buffer_block::BufferBlockPool;
use hot::flags;
use hot::gateway::AllocationInfo;
use hot::nodrop::Tag;
use hot::resource::BufferBlockSet;
use hot::resource::ResourceSet;

fn sample_buffer(raw: u64) -> Buffer {
    Buffer::new(
        raw,
        raw + 500,
        AllocationInfo { offset: 0, size: 2048, mapped_ptr: 0xbeef },
        BufferCreateInfo {
            domain: BufferUsageDomain::Host,
            size: 2048,
            usage: flags::BUFFER_USAGE_TRANSFER_SRC,
        },
        Some(0xbeef),
        Some(Tag::Static("staging")),
    )
}

#[test]
fn buffer_round_trip_through_the_set() {
    let mut resources = ResourceSet::new();
    let handle = resources.insert_buffer(sample_buffer(77));

    let stored = resources.get_buffer(handle).unwrap();
    assert_eq!(stored.raw(), 77);
    assert_eq!(stored.allocation(), 577);
    assert_eq!(stored.allocation_info().size, 2048);
    assert_eq!(stored.create_info().size, 2048);
    assert_eq!(stored.mapped_data(), Some(0xbeef));

    let removed = resources.remove_buffer(handle).unwrap();
    let (raw, allocation) = removed.destroy();
    assert_eq!(raw, 77);
    assert_eq!(allocation, 577);

    // The handle is permanently dead, even after the slot fills again.
    assert!(resources.get_buffer(handle).is_none());
    let fresh = resources.insert_buffer(sample_buffer(88));
    assert!(resources.get_buffer(handle).is_none());
    assert_eq!(resources.get_buffer(fresh).unwrap().raw(), 88);
}

#[test]
fn buffer_view_round_trip() {
    let mut resources = ResourceSet::new();
    let buffer = resources.insert_buffer(sample_buffer(5));
    let view = BufferView::new(
        buffer,
        900,
        BufferViewCreateInfo {
            format: hot::format::FORMAT_R8G8B8A8_SRGB,
            offset: 0,
            range: 1024,
        },
        None,
    );
    let handle = resources.insert_buffer_view(view);
    let stored = resources.get_buffer_view(handle).unwrap();
    assert_eq!(stored.view, 900);
    assert_eq!(stored.buffer, buffer);
    let removed = resources.remove_buffer_view(handle).unwrap();
    assert_eq!(removed.destroy(), 900);
    assert!(resources.get_buffer_view(handle).is_none());
}

#[test]
fn buffer_can_be_mutated_in_place() {
    let mut resources = ResourceSet::new();
    let handle = resources.insert_buffer(sample_buffer(3));
    resources.get_buffer_mut(handle).tag = Some(Tag::Static("renamed"));
    assert_eq!(
        resources.get_buffer(handle).unwrap().tag.as_ref().unwrap().as_str(),
        "renamed"
    );
}

#[test]
fn block_set_routes_to_the_right_pool() {
    let mk = |uuid| BufferBlockPool::new(uuid, 4096, 0, false, 1, true, None);
    let mut set = BufferBlockSet {
        vbo_pool: mk(1),
        ibo_pool: mk(2),
        ubo_pool: mk(3),
        staging_pool: mk(4),
    };
    let vertex_block = set
        .vbo_pool
        .allocate_block(hot::gateway::AllocatorPoolId { id: 42 }, None, 100, None);
    assert!(set.get_vertex_block(vertex_block).is_some());
    // The same handle shown to the other pools is rejected as foreign.
    assert!(set.get_index_block(vertex_block).is_none());
    assert!(set.get_uniform_block(vertex_block).is_none());
    assert!(set.get_staging_block(vertex_block).is_none());
}
