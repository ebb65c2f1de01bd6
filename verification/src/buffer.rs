//! Owned buffers and buffer views, and the classification of buffer
//! usage.

use vstd::prelude::*;

use crate::flags::ACCESS_INDEX_READ;
use crate::flags::ACCESS_INDIRECT_COMMAND_READ;
use crate::flags::ACCESS_SHADER_READ;
use crate::flags::ACCESS_SHADER_WRITE;
use crate::flags::ACCESS_TRANSFER_READ;
use crate::flags::ACCESS_TRANSFER_WRITE;
use crate::flags::ACCESS_UNIFORM_READ;
use crate::flags::ACCESS_VERTEX_ATTRIBUTE_READ;
use crate::flags::BUFFER_USAGE_INDEX_BUFFER;
use crate::flags::BUFFER_USAGE_INDIRECT_BUFFER;
use crate::flags::BUFFER_USAGE_STORAGE_BUFFER;
use crate::flags::BUFFER_USAGE_STORAGE_TEXEL_BUFFER;
use crate::flags::BUFFER_USAGE_TRANSFER_DST;
use crate::flags::BUFFER_USAGE_TRANSFER_SRC;
use crate::flags::BUFFER_USAGE_UNIFORM_BUFFER;
use crate::flags::BUFFER_USAGE_UNIFORM_TEXEL_BUFFER;
use crate::flags::BUFFER_USAGE_VERTEX_BUFFER;
use crate::flags::PIPELINE_STAGE_COMPUTE_SHADER;
use crate::flags::PIPELINE_STAGE_DRAW_INDIRECT;
use crate::flags::PIPELINE_STAGE_FRAGMENT_SHADER;
use crate::flags::PIPELINE_STAGE_TRANSFER;
use crate::flags::PIPELINE_STAGE_VERTEX_INPUT;
use crate::flags::PIPELINE_STAGE_VERTEX_SHADER;
use crate::gateway::AllocationInfo;
use crate::nodrop::Tag;
use crate::resource::BufferHandle;

verus! {

/// The general memory 'domain' a buffer should be placed in.
#[derive(Clone, Copy, Debug, Eq, PartialEq, Structural, Hash)]
pub enum BufferUsageDomain {
    /// Memory which is located on the graphics device. Will be fast for
    /// access on the device, but the CPU may not be able to access this
    /// memory directly.
    Device,
    /// Memory which is located on the graphics device. Prefers to be put
    /// in memory which is directly mappable from the host, but may not
    /// be.
    DeviceDynamic,
    /// Memory which is located on the host, and which is accessible by
    /// the device, but said access is probably slow.
    ///
    /// This type of buffer is usually used as a 'staging' or 'upload'
    /// buffer to copy data into a faster final `Device` buffer.
    Host,
    /// Memory which is mappable on host and cached.
    ///
    /// Intended use is to support readback of data that was computed on
    /// the device.
    Readback,
}

/// Information needed to create a buffer.
#[derive(Clone, Copy, Debug, Eq, PartialEq, Structural, Hash)]
pub struct BufferCreateInfo {
    /// The memory domain into which the buffer should be placed.
    pub domain: BufferUsageDomain,
    /// Size of the buffer to create, in bytes.
    pub size: u64,
    /// Usage of the buffer.
    pub usage: u32,
}

/// An owned buffer: the raw device handle, the allocation backing it, and
/// the information it was created with. It is destroyed only through an
/// explicit call that hands the raw handles back for the device-side
/// teardown — never silently.
#[derive(Debug)]
pub struct Buffer {
    /// Raw device buffer handle.
    pub buffer: u64,
    /// Allocator-side allocation handle.
    pub allocation: u64,
    /// What the allocator reported about the allocation.
    pub allocation_info: AllocationInfo,
    /// The creation parameters this buffer was made with.
    pub create_info: BufferCreateInfo,
    /// Address of the persistently mapped data, if the allocation is
    /// host-mapped.
    pub mapped_data: Option<u64>,
    /// Optional diagnostic tag.
    pub tag: Option<Tag>,
}

impl Buffer {
    /// Assemble an owned buffer record from what the device allocation
    /// gateway handed back.
    pub fn new(
        buffer: u64,
        allocation: u64,
        allocation_info: AllocationInfo,
        create_info: BufferCreateInfo,
        mapped_data: Option<u64>,
        tag: Option<Tag>,
    ) -> (r: Buffer)
        ensures
            r.buffer == buffer,
            r.allocation == allocation,
            r.allocation_info == allocation_info,
            r.create_info == create_info,
            r.mapped_data == mapped_data,
            r.tag == tag,
    {
        Buffer { buffer, allocation, allocation_info, create_info, mapped_data, tag }
    }

    /// The raw device buffer handle.
    pub fn raw(&self) -> (r: u64)
        ensures
            r == self.buffer,
    {
        self.buffer
    }

    /// The allocator-side allocation handle.
    pub fn allocation(&self) -> (r: u64)
        ensures
            r == self.allocation,
    {
        self.allocation
    }

    /// What the allocator reported about this buffer's allocation.
    pub fn allocation_info(&self) -> (r: AllocationInfo)
        ensures
            r == self.allocation_info,
    {
        self.allocation_info
    }

    /// The creation parameters used to create this buffer.
    pub fn create_info(&self) -> (r: BufferCreateInfo)
        ensures
            r == self.create_info,
    {
        self.create_info
    }

    /// The address of the CPU-mapped data of this buffer, if it exists.
    pub fn mapped_data(&self) -> (r: Option<u64>)
        ensures
            r == self.mapped_data,
    {
        self.mapped_data
    }

    /// Explicitly destroy this buffer: consume the record and hand the
    /// raw buffer and allocation handles back, for the caller to return
    /// to the device allocator.
    pub fn destroy(self) -> (r: (u64, u64))
        ensures
            r.0 == self.buffer,
            r.1 == self.allocation,
    {
        (self.buffer, self.allocation)
    }
}

/// Information needed to create a buffer view.
#[derive(Clone, Copy, Debug, Eq, PartialEq, Structural, Hash)]
pub struct BufferViewCreateInfo {
    /// The format to interpret the data being viewed as.
    pub format: i32,
    /// The offset into the buffer data where the view should begin, in
    /// bytes.
    pub offset: u64,
    /// The amount of data to be viewed, in bytes.
    pub range: u64,
}

/// An owned buffer view and some associated information. Destroyed only
/// by an explicit call that hands the raw view handle back.
#[derive(Debug)]
pub struct BufferView {
    /// Handle of the buffer being viewed.
    pub buffer: BufferHandle,
    /// Raw device buffer view handle.
    pub view: u64,
    /// The creation parameters this view was made with.
    pub create_info: BufferViewCreateInfo,
    /// Optional diagnostic tag.
    pub tag: Option<Tag>,
}

impl BufferView {
    /// Assemble an owned buffer view record.
    pub fn new(buffer: BufferHandle, view: u64, create_info: BufferViewCreateInfo, tag: Option<
        Tag,
    >) -> (r: BufferView)
        ensures
            r.buffer == buffer,
            r.view == view,
            r.create_info == create_info,
            r.tag == tag,
    {
        BufferView { buffer, view, create_info, tag }
    }

    /// Explicitly destroy this view: consume the record and hand the raw
    /// view handle back, for the caller to return to the device.
    pub fn destroy(self) -> (r: u64)
        ensures
            r == self.view,
    {
        self.view
    }
}

/// All pipeline stages that could touch a buffer of the given usage.
pub open spec fn spec_possible_stages_from_usage(usage: u32) -> u32 {
    let s0 = 0u32;
    let s1 = if usage & BUFFER_USAGE_TRANSFER_SRC == BUFFER_USAGE_TRANSFER_SRC || usage
        & BUFFER_USAGE_TRANSFER_DST == BUFFER_USAGE_TRANSFER_DST {
        s0 | PIPELINE_STAGE_TRANSFER
    } else {
        s0
    };
    let s2 = if usage & BUFFER_USAGE_VERTEX_BUFFER == BUFFER_USAGE_VERTEX_BUFFER || usage
        & BUFFER_USAGE_INDEX_BUFFER == BUFFER_USAGE_INDEX_BUFFER {
        s1 | PIPELINE_STAGE_VERTEX_INPUT
    } else {
        s1
    };
    let s3 = if usage & BUFFER_USAGE_INDIRECT_BUFFER == BUFFER_USAGE_INDIRECT_BUFFER {
        s2 | PIPELINE_STAGE_DRAW_INDIRECT
    } else {
        s2
    };
    let s4 = if usage & BUFFER_USAGE_UNIFORM_BUFFER == BUFFER_USAGE_UNIFORM_BUFFER || usage
        & BUFFER_USAGE_UNIFORM_TEXEL_BUFFER == BUFFER_USAGE_UNIFORM_TEXEL_BUFFER || usage
        & BUFFER_USAGE_STORAGE_TEXEL_BUFFER == BUFFER_USAGE_STORAGE_TEXEL_BUFFER {
        s3 | PIPELINE_STAGE_COMPUTE_SHADER | PIPELINE_STAGE_VERTEX_SHADER
            | PIPELINE_STAGE_FRAGMENT_SHADER
    } else {
        s3
    };
    if usage & BUFFER_USAGE_STORAGE_BUFFER == BUFFER_USAGE_STORAGE_BUFFER {
        s4 | PIPELINE_STAGE_COMPUTE_SHADER
    } else {
        s4
    }
}

/// Get all possible pipeline stages given a set of buffer usage flags.
pub fn possible_stages_from_usage(usage: u32) -> (r: u32)
    ensures
        r == spec_possible_stages_from_usage(usage),
{
    let mut flags: u32 = 0;

    if usage & BUFFER_USAGE_TRANSFER_SRC == BUFFER_USAGE_TRANSFER_SRC || usage
        & BUFFER_USAGE_TRANSFER_DST == BUFFER_USAGE_TRANSFER_DST {
        flags = flags | PIPELINE_STAGE_TRANSFER;
    }
    if usage & BUFFER_USAGE_VERTEX_BUFFER == BUFFER_USAGE_VERTEX_BUFFER || usage
        & BUFFER_USAGE_INDEX_BUFFER == BUFFER_USAGE_INDEX_BUFFER {
        flags = flags | PIPELINE_STAGE_VERTEX_INPUT;
    }
    if usage & BUFFER_USAGE_INDIRECT_BUFFER == BUFFER_USAGE_INDIRECT_BUFFER {
        flags = flags | PIPELINE_STAGE_DRAW_INDIRECT;
    }
    if usage & BUFFER_USAGE_UNIFORM_BUFFER == BUFFER_USAGE_UNIFORM_BUFFER || usage
        & BUFFER_USAGE_UNIFORM_TEXEL_BUFFER == BUFFER_USAGE_UNIFORM_TEXEL_BUFFER || usage
        & BUFFER_USAGE_STORAGE_TEXEL_BUFFER == BUFFER_USAGE_STORAGE_TEXEL_BUFFER {
        flags = flags | PIPELINE_STAGE_COMPUTE_SHADER | PIPELINE_STAGE_VERTEX_SHADER
            | PIPELINE_STAGE_FRAGMENT_SHADER;
    }
    if usage & BUFFER_USAGE_STORAGE_BUFFER == BUFFER_USAGE_STORAGE_BUFFER {
        flags = flags | PIPELINE_STAGE_COMPUTE_SHADER;
    }

    flags
}

/// All access kinds that could touch a buffer of the given usage.
pub open spec fn spec_possible_accesses_from_usage(usage: u32) -> u32 {
    let a0 = 0u32;
    let a1 = if usage & BUFFER_USAGE_TRANSFER_SRC == BUFFER_USAGE_TRANSFER_SRC {
        a0 | ACCESS_TRANSFER_READ
    } else {
        a0
    };
    let a2 = if usage & BUFFER_USAGE_TRANSFER_DST == BUFFER_USAGE_TRANSFER_DST {
        a1 | ACCESS_TRANSFER_WRITE
    } else {
        a1
    };
    let a3 = if usage & BUFFER_USAGE_VERTEX_BUFFER == BUFFER_USAGE_VERTEX_BUFFER {
        a2 | ACCESS_VERTEX_ATTRIBUTE_READ
    } else {
        a2
    };
    let a4 = if usage & BUFFER_USAGE_INDEX_BUFFER == BUFFER_USAGE_INDEX_BUFFER {
        a3 | ACCESS_INDEX_READ
    } else {
        a3
    };
    let a5 = if usage & BUFFER_USAGE_INDIRECT_BUFFER == BUFFER_USAGE_INDIRECT_BUFFER {
        a4 | ACCESS_INDIRECT_COMMAND_READ
    } else {
        a4
    };
    let a6 = if usage & BUFFER_USAGE_UNIFORM_BUFFER == BUFFER_USAGE_UNIFORM_BUFFER {
        a5 | ACCESS_UNIFORM_READ
    } else {
        a5
    };
    if usage & BUFFER_USAGE_STORAGE_BUFFER == BUFFER_USAGE_STORAGE_BUFFER {
        a6 | ACCESS_SHADER_READ | ACCESS_SHADER_WRITE
    } else {
        a6
    }
}

/// Get all possible access kinds given a set of buffer usage flags.
pub fn possible_accesses_from_usage(usage: u32) -> (r: u32)
    ensures
        r == spec_possible_accesses_from_usage(usage),
{
    let mut access: u32 = 0;

    if usage & BUFFER_USAGE_TRANSFER_SRC == BUFFER_USAGE_TRANSFER_SRC {
        access = access | ACCESS_TRANSFER_READ;
    }
    if usage & BUFFER_USAGE_TRANSFER_DST == BUFFER_USAGE_TRANSFER_DST {
        access = access | ACCESS_TRANSFER_WRITE;
    }
    if usage & BUFFER_USAGE_VERTEX_BUFFER == BUFFER_USAGE_VERTEX_BUFFER {
        access = access | ACCESS_VERTEX_ATTRIBUTE_READ;
    }
    if usage & BUFFER_USAGE_INDEX_BUFFER == BUFFER_USAGE_INDEX_BUFFER {
        access = access | ACCESS_INDEX_READ;
    }
    if usage & BUFFER_USAGE_INDIRECT_BUFFER == BUFFER_USAGE_INDIRECT_BUFFER {
        access = access | ACCESS_INDIRECT_COMMAND_READ;
    }
    if usage & BUFFER_USAGE_UNIFORM_BUFFER == BUFFER_USAGE_UNIFORM_BUFFER {
        access = access | ACCESS_UNIFORM_READ;
    }
    if usage & BUFFER_USAGE_STORAGE_BUFFER == BUFFER_USAGE_STORAGE_BUFFER {
        access = access | ACCESS_SHADER_READ | ACCESS_SHADER_WRITE;
    }

    access
}

} // verus!
