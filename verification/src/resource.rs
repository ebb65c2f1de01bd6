//! Persistent resource ownership: the arena-backed sets that hold owned
//! buffers, buffer views and images behind generation-checked handles.

use vstd::prelude::*;

use crate::arena::Arena;
use crate::arena::Handle;
use crate::buffer::Buffer;
use crate::buffer::BufferView;
use crate::buffer_block::BufferBlock;
use crate::buffer_block::BufferBlockPool;
use crate::buffer_block::OwnedBufferBlock;
use crate::image::Image;
use crate::image::ImageView;

verus! {

/// Handle to a persistent buffer.
#[derive(Clone, Copy, Debug, PartialEq, Eq, Structural, Hash)]
pub struct BufferHandle {
    /// The arena slot the buffer lives in.
    pub idx: Handle,
}

impl BufferHandle {
    /// Wrap an arena handle.
    pub fn new(idx: Handle) -> (r: BufferHandle)
        ensures
            r.idx == idx,
    {
        BufferHandle { idx }
    }
}

/// Handle to a persistent buffer view.
#[derive(Clone, Copy, Debug, PartialEq, Eq, Structural, Hash)]
pub struct BufferViewHandle {
    /// The arena slot the view lives in.
    pub idx: Handle,
}

impl BufferViewHandle {
    /// Wrap an arena handle.
    pub fn new(idx: Handle) -> (r: BufferViewHandle)
        ensures
            r.idx == idx,
    {
        BufferViewHandle { idx }
    }
}

/// Handle to a persistent image.
#[derive(Clone, Copy, Debug, PartialEq, Eq, Structural, Hash)]
pub struct ImageHandle {
    /// The arena slot the image lives in.
    pub idx: Handle,
}

impl ImageHandle {
    /// Wrap an arena handle.
    pub fn new(idx: Handle) -> (r: ImageHandle)
        ensures
            r.idx == idx,
    {
        ImageHandle { idx }
    }
}

/// A set of persistent GPU resources: one generation-checked arena per
/// resource kind. Each arena is the single owner of the records in it; a
/// record leaves only through an explicit remove, which hands it back for
/// destruction.
pub struct ResourceSet {
    /// The owned buffers.
    pub buffers: Arena<Buffer>,
    /// The owned buffer views.
    pub buffer_views: Arena<BufferView>,
    /// The owned images.
    pub images: Arena<Image>,
    /// The owned image views.
    pub image_views: Arena<ImageView>,
}

impl ResourceSet {
    /// All four arenas internally consistent.
    pub open spec fn wf(&self) -> bool {
        &&& self.buffers.wf()
        &&& self.buffer_views.wf()
        &&& self.images.wf()
        &&& self.image_views.wf()
    }

    /// An empty resource set.
    pub fn new() -> (r: ResourceSet)
        ensures
            r.wf(),
            r.buffers.spec_len() == 0,
            r.buffer_views.spec_len() == 0,
            r.images.spec_len() == 0,
            r.image_views.spec_len() == 0,
    {
        ResourceSet {
            buffers: Arena::new(),
            buffer_views: Arena::new(),
            images: Arena::new(),
            image_views: Arena::new(),
        }
    }

    /// Get a shared reference to the owned buffer behind a given handle,
    /// if it still exists.
    pub fn get_buffer(&self, buffer: BufferHandle) -> (r: Option<&Buffer>)
        ensures
            r is Some <==> self.buffers.resolves(buffer.idx),
            match r {
                Some(b) => self.buffers.spec_get(buffer.idx) == Some(*b),
                None => self.buffers.spec_get(buffer.idx) is None,
            },
    {
        self.buffers.get(buffer.idx)
    }

    /// Get a shared reference to the owned buffer view behind a given
    /// handle, if it still exists.
    pub fn get_buffer_view(&self, buffer_view: BufferViewHandle) -> (r: Option<&BufferView>)
        ensures
            r is Some <==> self.buffer_views.resolves(buffer_view.idx),
            match r {
                Some(v) => self.buffer_views.spec_get(buffer_view.idx) == Some(*v),
                None => self.buffer_views.spec_get(buffer_view.idx) is None,
            },
    {
        self.buffer_views.get(buffer_view.idx)
    }

    /// Get a shared reference to the owned image behind a given handle,
    /// if it still exists.
    pub fn get_image(&self, image: ImageHandle) -> (r: Option<&Image>)
        ensures
            r is Some <==> self.images.resolves(image.idx),
            match r {
                Some(i) => self.images.spec_get(image.idx) == Some(*i),
                None => self.images.spec_get(image.idx) is None,
            },
    {
        self.images.get(image.idx)
    }

    /// Borrow the owned buffer behind a given handle for mutation in
    /// place. The caller must have checked, through `get_buffer`, that
    /// the handle still resolves.
    pub fn get_buffer_mut(&mut self, buffer: BufferHandle) -> (r: &mut Buffer)
        requires
            old(self).wf(),
            old(self).buffers.resolves(buffer.idx),
        ensures
            final(self).wf(),
            Some(*r) == old(self).buffers.spec_get(buffer.idx),
            final(self).buffers.resolves(buffer.idx),
            final(self).buffers.spec_get(buffer.idx) == Some(*final(r)),
            final(self).buffers.spec_len() == old(self).buffers.spec_len(),
            final(self).buffers.n_slots() == old(self).buffers.n_slots(),
            forall|i: int|
                0 <= i < old(self).buffers.n_slots() ==> final(self).buffers.gen_at(i) == old(self).buffers.gen_at(i),
            forall|i: int|
                0 <= i < old(self).buffers.n_slots() && i != buffer.idx.index as int ==> final(self).buffers.val_at(i) == old(self).buffers.val_at(i),
            final(self).buffer_views == old(self).buffer_views,
            final(self).images == old(self).images,
            final(self).image_views == old(self).image_views,
    {
        self.buffers.borrow_mut(buffer.idx)
    }

    /// Borrow the owned buffer view behind a given handle for mutation in
    /// place. The caller must have checked, through `get_buffer_view`,
    /// that the handle still resolves.
    pub fn get_buffer_view_mut(&mut self, buffer_view: BufferViewHandle) -> (r: &mut BufferView)
        requires
            old(self).wf(),
            old(self).buffer_views.resolves(buffer_view.idx),
        ensures
            final(self).wf(),
            Some(*r) == old(self).buffer_views.spec_get(buffer_view.idx),
            final(self).buffer_views.resolves(buffer_view.idx),
            final(self).buffer_views.spec_get(buffer_view.idx) == Some(*final(r)),
            final(self).buffer_views.spec_len() == old(self).buffer_views.spec_len(),
            final(self).buffer_views.n_slots() == old(self).buffer_views.n_slots(),
            forall|i: int|
                0 <= i < old(self).buffer_views.n_slots() ==> final(self).buffer_views.gen_at(i)
                    == old(self).buffer_views.gen_at(i),
            forall|i: int|
                0 <= i < old(self).buffer_views.n_slots() && i != buffer_view.idx.index as int
                    ==> final(self).buffer_views.val_at(i) == old(self).buffer_views.val_at(i),
            final(self).buffers == old(self).buffers,
            final(self).images == old(self).images,
            final(self).image_views == old(self).image_views,
    {
        self.buffer_views.borrow_mut(buffer_view.idx)
    }

    /// Borrow the owned image behind a given handle for mutation in
    /// place. The caller must have checked, through `get_image`, that the
    /// handle still resolves.
    pub fn get_image_mut(&mut self, image: ImageHandle) -> (r: &mut Image)
        requires
            old(self).wf(),
            old(self).images.resolves(image.idx),
        ensures
            final(self).wf(),
            Some(*r) == old(self).images.spec_get(image.idx),
            final(self).images.resolves(image.idx),
            final(self).images.spec_get(image.idx) == Some(*final(r)),
            final(self).images.spec_len() == old(self).images.spec_len(),
            final(self).images.n_slots() == old(self).images.n_slots(),
            forall|i: int|
                0 <= i < old(self).images.n_slots() ==> final(self).images.gen_at(i) == old(self).images.gen_at(i),
            forall|i: int|
                0 <= i < old(self).images.n_slots() && i != image.idx.index as int ==> final(self).images.val_at(i) == old(self).images.val_at(i),
            final(self).buffers == old(self).buffers,
            final(self).buffer_views == old(self).buffer_views,
            final(self).image_views == old(self).image_views,
    {
        self.images.borrow_mut(image.idx)
    }

    /// Store an owned buffer and return its handle.
    pub fn insert_buffer(&mut self, buffer: Buffer) -> (r: BufferHandle)
        requires
            old(self).wf(),
        ensures
            final(self).wf(),
            final(self).buffers.resolves(r.idx),
            final(self).buffers.spec_get(r.idx) == Some(buffer),
            final(self).buffers.spec_len() == old(self).buffers.spec_len() + 1,
            final(self).buffer_views == old(self).buffer_views,
            final(self).images == old(self).images,
            final(self).image_views == old(self).image_views,
            crate::arena::generations_grow(old(self).buffers, final(self).buffers),
    {
        let idx = self.buffers.insert(buffer);
        BufferHandle { idx }
    }

    /// Store an owned buffer view and return its handle.
    pub fn insert_buffer_view(&mut self, view: BufferView) -> (r: BufferViewHandle)
        requires
            old(self).wf(),
        ensures
            final(self).wf(),
            final(self).buffer_views.resolves(r.idx),
            final(self).buffer_views.spec_get(r.idx) == Some(view),
            final(self).buffer_views.spec_len() == old(self).buffer_views.spec_len() + 1,
            final(self).buffers == old(self).buffers,
            final(self).images == old(self).images,
            final(self).image_views == old(self).image_views,
    {
        let idx = self.buffer_views.insert(view);
        BufferViewHandle { idx }
    }

    /// Store an owned image and return its handle.
    pub fn insert_image(&mut self, image: Image) -> (r: ImageHandle)
        requires
            old(self).wf(),
        ensures
            final(self).wf(),
            final(self).images.resolves(r.idx),
            final(self).images.spec_get(r.idx) == Some(image),
            final(self).images.spec_len() == old(self).images.spec_len() + 1,
            final(self).buffers == old(self).buffers,
            final(self).buffer_views == old(self).buffer_views,
            final(self).image_views == old(self).image_views,
    {
        let idx = self.images.insert(image);
        ImageHandle { idx }
    }

    /// Evict the buffer behind `buffer` and hand ownership back for
    /// explicit destruction. Its handle — every copy of it — is stale
    /// afterwards, forever.
    pub fn remove_buffer(&mut self, buffer: BufferHandle) -> (r: Option<Buffer>)
        requires
            old(self).wf(),
        ensures
            final(self).wf(),
            r is Some <==> old(self).buffers.resolves(buffer.idx),
            r == old(self).buffers.spec_get(buffer.idx),
            old(self).buffers.resolves(buffer.idx) ==> final(self).buffers.stale(buffer.idx),
            final(self).buffers.n_slots() == old(self).buffers.n_slots(),
            forall|i: int|
                0 <= i < old(self).buffers.n_slots() && i != buffer.idx.index as int ==> final(self).buffers.gen_at(i) == old(self).buffers.gen_at(i) && final(self).buffers.val_at(i)
                    == old(self).buffers.val_at(i),
            final(self).buffer_views == old(self).buffer_views,
            final(self).images == old(self).images,
            final(self).image_views == old(self).image_views,
            crate::arena::generations_grow(old(self).buffers, final(self).buffers),
    {
        self.buffers.remove(buffer.idx)
    }

    /// Evict the buffer view behind `buffer_view` and hand ownership back
    /// for explicit destruction.
    pub fn remove_buffer_view(&mut self, buffer_view: BufferViewHandle) -> (r: Option<BufferView>)
        requires
            old(self).wf(),
        ensures
            final(self).wf(),
            r is Some <==> old(self).buffer_views.resolves(buffer_view.idx),
            r == old(self).buffer_views.spec_get(buffer_view.idx),
            old(self).buffer_views.resolves(buffer_view.idx) ==> final(self).buffer_views.stale(
                buffer_view.idx,
            ),
            final(self).buffer_views.n_slots() == old(self).buffer_views.n_slots(),
            forall|i: int|
                0 <= i < old(self).buffer_views.n_slots() && i != buffer_view.idx.index as int
                    ==> final(self).buffer_views.gen_at(i) == old(self).buffer_views.gen_at(i)
                    && final(self).buffer_views.val_at(i) == old(self).buffer_views.val_at(i),
            final(self).buffers == old(self).buffers,
            final(self).images == old(self).images,
            final(self).image_views == old(self).image_views,
            crate::arena::generations_grow(old(self).buffer_views, final(self).buffer_views),
    {
        self.buffer_views.remove(buffer_view.idx)
    }

    /// Evict the image behind `image` and hand ownership back for
    /// explicit destruction.
    pub fn remove_image(&mut self, image: ImageHandle) -> (r: Option<Image>)
        requires
            old(self).wf(),
        ensures
            final(self).wf(),
            r is Some <==> old(self).images.resolves(image.idx),
            r == old(self).images.spec_get(image.idx),
            old(self).images.resolves(image.idx) ==> final(self).images.stale(image.idx),
            final(self).images.n_slots() == old(self).images.n_slots(),
            forall|i: int|
                0 <= i < old(self).images.n_slots() && i != image.idx.index as int ==> final(self).images.gen_at(i) == old(self).images.gen_at(i) && final(self).images.val_at(i)
                    == old(self).images.val_at(i),
            final(self).buffers == old(self).buffers,
            final(self).buffer_views == old(self).buffer_views,
            final(self).image_views == old(self).image_views,
            crate::arena::generations_grow(old(self).images, final(self).images),
    {
        self.images.remove(image.idx)
    }
}

/// A set of block pools, one per usage class.
pub struct BufferBlockSet {
    /// The pool of vertex-buffer blocks.
    pub vbo_pool: BufferBlockPool,
    /// The pool of index-buffer blocks.
    pub ibo_pool: BufferBlockPool,
    /// The pool of uniform-buffer blocks.
    pub ubo_pool: BufferBlockPool,
    /// The pool of staging blocks.
    pub staging_pool: BufferBlockPool,
}

impl BufferBlockSet {
    /// All four pools internally consistent.
    pub open spec fn wf(&self) -> bool {
        &&& self.vbo_pool.wf()
        &&& self.ibo_pool.wf()
        &&& self.ubo_pool.wf()
        &&& self.staging_pool.wf()
    }

    /// Get a reference to a vertex buffer block, if it exists.
    pub fn get_vertex_block(&self, block: BufferBlock) -> (r: Option<&OwnedBufferBlock>)
        ensures
            r is Some <==> block.pool_uuid == self.vbo_pool.uuid
                && self.vbo_pool.owned_blocks.resolves(block.idx),
            r matches Some(b) ==> self.vbo_pool.owned_blocks.spec_get(block.idx) == Some(*b),
    {
        self.vbo_pool.get_block(block)
    }

    /// Get a reference to an index buffer block, if it exists.
    pub fn get_index_block(&self, block: BufferBlock) -> (r: Option<&OwnedBufferBlock>)
        ensures
            r is Some <==> block.pool_uuid == self.ibo_pool.uuid
                && self.ibo_pool.owned_blocks.resolves(block.idx),
            r matches Some(b) ==> self.ibo_pool.owned_blocks.spec_get(block.idx) == Some(*b),
    {
        self.ibo_pool.get_block(block)
    }

    /// Get a reference to a uniform buffer block, if it exists.
    pub fn get_uniform_block(&self, block: BufferBlock) -> (r: Option<&OwnedBufferBlock>)
        ensures
            r is Some <==> block.pool_uuid == self.ubo_pool.uuid
                && self.ubo_pool.owned_blocks.resolves(block.idx),
            r matches Some(b) ==> self.ubo_pool.owned_blocks.spec_get(block.idx) == Some(*b),
    {
        self.ubo_pool.get_block(block)
    }

    /// Get a reference to a staging buffer block, if it exists.
    pub fn get_staging_block(&self, block: BufferBlock) -> (r: Option<&OwnedBufferBlock>)
        ensures
            r is Some <==> block.pool_uuid == self.staging_pool.uuid
                && self.staging_pool.owned_blocks.resolves(block.idx),
            r matches Some(b) ==> self.staging_pool.owned_blocks.spec_get(block.idx) == Some(*b),
    {
        self.staging_pool.get_block(block)
    }

    /// Borrow a vertex buffer block for mutation in place; the caller
    /// must have checked that the handle resolves in the vertex pool.
    pub fn get_vertex_block_mut(&mut self, block: BufferBlock) -> (r: &mut OwnedBufferBlock)
        requires
            old(self).wf(),
            block.pool_uuid == old(self).vbo_pool.uuid,
            old(self).vbo_pool.owned_blocks.resolves(block.idx),
        ensures
            Some(*r) == old(self).vbo_pool.owned_blocks.spec_get(block.idx),
            final(self).vbo_pool.owned_blocks.spec_get(block.idx) == Some(*final(r)),
            final(self).ibo_pool == old(self).ibo_pool,
            final(self).ubo_pool == old(self).ubo_pool,
            final(self).staging_pool == old(self).staging_pool,
            final(self).vbo_pool.block_fits(*final(r), block.idx.index as int) ==> final(self).vbo_pool.wf(),
    {
        self.vbo_pool.get_block_mut(block)
    }

    /// Borrow an index buffer block for mutation in place; the caller
    /// must have checked that the handle resolves in the index pool.
    pub fn get_index_block_mut(&mut self, block: BufferBlock) -> (r: &mut OwnedBufferBlock)
        requires
            old(self).wf(),
            block.pool_uuid == old(self).ibo_pool.uuid,
            old(self).ibo_pool.owned_blocks.resolves(block.idx),
        ensures
            Some(*r) == old(self).ibo_pool.owned_blocks.spec_get(block.idx),
            final(self).ibo_pool.owned_blocks.spec_get(block.idx) == Some(*final(r)),
            final(self).vbo_pool == old(self).vbo_pool,
            final(self).ubo_pool == old(self).ubo_pool,
            final(self).staging_pool == old(self).staging_pool,
            final(self).ibo_pool.block_fits(*final(r), block.idx.index as int) ==> final(self).ibo_pool.wf(),
    {
        self.ibo_pool.get_block_mut(block)
    }

    /// Borrow a uniform buffer block for mutation in place; the caller
    /// must have checked that the handle resolves in the uniform pool.
    pub fn get_uniform_block_mut(&mut self, block: BufferBlock) -> (r: &mut OwnedBufferBlock)
        requires
            old(self).wf(),
            block.pool_uuid == old(self).ubo_pool.uuid,
            old(self).ubo_pool.owned_blocks.resolves(block.idx),
        ensures
            Some(*r) == old(self).ubo_pool.owned_blocks.spec_get(block.idx),
            final(self).ubo_pool.owned_blocks.spec_get(block.idx) == Some(*final(r)),
            final(self).vbo_pool == old(self).vbo_pool,
            final(self).ibo_pool == old(self).ibo_pool,
            final(self).staging_pool == old(self).staging_pool,
            final(self).ubo_pool.block_fits(*final(r), block.idx.index as int) ==> final(self).ubo_pool.wf(),
    {
        self.ubo_pool.get_block_mut(block)
    }

    /// Borrow a staging buffer block for mutation in place; the caller
    /// must have checked that the handle resolves in the staging pool.
    pub fn get_staging_block_mut(&mut self, block: BufferBlock) -> (r: &mut OwnedBufferBlock)
        requires
            old(self).wf(),
            block.pool_uuid == old(self).staging_pool.uuid,
            old(self).staging_pool.owned_blocks.resolves(block.idx),
        ensures
            Some(*r) == old(self).staging_pool.owned_blocks.spec_get(block.idx),
            final(self).staging_pool.owned_blocks.spec_get(block.idx) == Some(*final(r)),
            final(self).vbo_pool == old(self).vbo_pool,
            final(self).ibo_pool == old(self).ibo_pool,
            final(self).ubo_pool == old(self).ubo_pool,
            final(self).staging_pool.block_fits(*final(r), block.idx.index as int) ==> final(self).staging_pool.wf(),
    {
        self.staging_pool.get_block_mut(block)
    }
}

} // verus!
