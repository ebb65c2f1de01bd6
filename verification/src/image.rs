//! Owned images and image views, their creation parameters, and the
//! classification of image usage.

use vstd::prelude::*;

use crate::flags::ACCESS_COLOR_ATTACHMENT_READ;
use crate::flags::ACCESS_COLOR_ATTACHMENT_WRITE;
use crate::flags::ACCESS_DEPTH_STENCIL_ATTACHMENT_READ;
use crate::flags::ACCESS_DEPTH_STENCIL_ATTACHMENT_WRITE;
use crate::flags::ACCESS_INPUT_ATTACHMENT_READ;
use crate::flags::ACCESS_SHADER_READ;
use crate::flags::ACCESS_SHADER_WRITE;
use crate::flags::ACCESS_TRANSFER_READ;
use crate::flags::ACCESS_TRANSFER_WRITE;
use crate::flags::COMPONENT_SWIZZLE_A;
use crate::flags::COMPONENT_SWIZZLE_B;
use crate::flags::COMPONENT_SWIZZLE_G;
use crate::flags::COMPONENT_SWIZZLE_R;
use crate::flags::FORMAT_FEATURE_COLOR_ATTACHMENT;
use crate::flags::FORMAT_FEATURE_DEPTH_STENCIL_ATTACHMENT;
use crate::flags::FORMAT_FEATURE_SAMPLED_IMAGE;
use crate::flags::FORMAT_FEATURE_STORAGE_IMAGE;
use crate::flags::IMAGE_LAYOUT_COLOR_ATTACHMENT_OPTIMAL;
use crate::flags::IMAGE_LAYOUT_DEPTH_ATTACHMENT_STENCIL_READ_ONLY_OPTIMAL;
use crate::flags::IMAGE_LAYOUT_DEPTH_STENCIL_ATTACHMENT_OPTIMAL;
use crate::flags::IMAGE_LAYOUT_GENERAL;
use crate::flags::IMAGE_LAYOUT_SHADER_READ_ONLY_OPTIMAL;
use crate::flags::IMAGE_LAYOUT_TRANSFER_DST_OPTIMAL;
use crate::flags::IMAGE_LAYOUT_TRANSFER_SRC_OPTIMAL;
use crate::flags::IMAGE_LAYOUT_UNDEFINED;
use crate::flags::IMAGE_USAGE_COLOR_ATTACHMENT;
use crate::flags::IMAGE_USAGE_DEPTH_STENCIL_ATTACHMENT;
use crate::flags::IMAGE_USAGE_INPUT_ATTACHMENT;
use crate::flags::IMAGE_USAGE_SAMPLED;
use crate::flags::IMAGE_USAGE_STORAGE;
use crate::flags::IMAGE_USAGE_TRANSFER_DST;
use crate::flags::IMAGE_USAGE_TRANSFER_SRC;
use crate::flags::IMAGE_USAGE_TRANSIENT_ATTACHMENT;
use crate::flags::PIPELINE_STAGE_COLOR_ATTACHMENT_OUTPUT;
use crate::flags::PIPELINE_STAGE_COMPUTE_SHADER;
use crate::flags::PIPELINE_STAGE_EARLY_FRAGMENT_TESTS;
use crate::flags::PIPELINE_STAGE_FRAGMENT_SHADER;
use crate::flags::PIPELINE_STAGE_LATE_FRAGMENT_TESTS;
use crate::flags::PIPELINE_STAGE_TRANSFER;
use crate::flags::PIPELINE_STAGE_VERTEX_SHADER;
use crate::flags::SAMPLE_COUNT_1;
use crate::format::spec_format_has_depth_aspect;
use crate::format::spec_format_has_stencil_aspect;
use crate::format::format_has_depth_or_stencil_aspect;
use crate::format::FORMAT_UNDEFINED;
use crate::gateway::AllocationInfo;
use crate::nodrop::Tag;
use crate::resource::ImageHandle;

verus! {

/// A one-dimensional image.
pub const IMAGE_TYPE_1D: i32 = 0;

/// A two-dimensional image.
pub const IMAGE_TYPE_2D: i32 = 1;

/// A three-dimensional image.
pub const IMAGE_TYPE_3D: i32 = 2;

/// Automatically generate mipmaps for the image.
pub const MISC_IMAGE_GENERATE_MIPS: u16 = 0x1;

/// Initial data for an image.
pub struct InitialImageData<'a> {
    /// The raw data.
    pub data: &'a [u8],
    /// Length of a row in pixels.
    pub row_length: usize,
    /// Height of the image in pixels.
    pub image_height: usize,
}

/// The general memory 'domain' an image should be placed in.
#[derive(Clone, Copy, Debug, Eq, PartialEq, Structural, Hash)]
pub enum ImageUsageDomain {
    /// An image located in the graphics device's memory. Should be used
    /// for persistent images which are used in multiple render passes.
    Physical,
    /// A transient image which exists only in device cache. Should be
    /// used for images which only exist within one physical render pass,
    /// for example a depth buffer which is never read in a subsequent
    /// pass.
    Transient,
}

/// Which source channel each component of a view reads.
#[derive(Clone, Copy, Debug, Eq, PartialEq, Structural, Hash)]
pub struct ComponentMapping {
    /// Source of the red component.
    pub r: i32,
    /// Source of the green component.
    pub g: i32,
    /// Source of the blue component.
    pub b: i32,
    /// Source of the alpha component.
    pub a: i32,
}

/// The straight red-green-blue-alpha component mapping.
pub open spec fn spec_rgba_mapping() -> ComponentMapping {
    ComponentMapping {
        r: COMPONENT_SWIZZLE_R,
        g: COMPONENT_SWIZZLE_G,
        b: COMPONENT_SWIZZLE_B,
        a: COMPONENT_SWIZZLE_A,
    }
}

/// Info necessary to create an image view.
#[derive(Clone, Copy, Debug)]
pub struct ImageViewCreateInfo {
    /// The image being viewed.
    pub image: ImageHandle,
    /// The format to interpret the image as.
    pub format: i32,
    /// The base mip level to view.
    pub base_mip_level: usize,
    /// The number of mip levels to view.
    pub mip_levels: usize,
    /// The base array layer to view.
    pub base_array_layer: usize,
    /// The number of array layers to view.
    pub array_layers: usize,
    /// The image view type.
    pub view_type: i32,
    /// The component mapping to use for the view.
    pub swizzle: ComponentMapping,
}

/// An owned image view and associated data. Destroyed only by an explicit
/// call that hands the raw view handles back.
#[derive(Debug)]
pub struct ImageView {
    /// The main raw view handle.
    pub view: u64,
    /// Raw per-level views used as render targets.
    pub render_target_views: Vec<u64>,
    /// Raw depth-aspect view handle.
    pub depth_view: u64,
    /// Raw stencil-aspect view handle.
    pub stencil_view: u64,
    /// Raw non-sRGB view handle.
    pub unorm_view: u64,
    /// Raw sRGB view handle.
    pub srgb_view: u64,
    /// The creation parameters this view was made with.
    pub create_info: ImageViewCreateInfo,
}

/// Info necessary to create an image.
#[derive(Clone, Copy, Debug)]
pub struct ImageCreateInfo {
    /// Domain to place the image into.
    pub domain: ImageUsageDomain,
    /// Width of the image in pixels.
    pub width: usize,
    /// Height of the image in pixels.
    pub height: usize,
    /// Depth of the image in pixels.
    pub depth: usize,
    /// Number of mip levels for the image.
    pub levels: usize,
    /// Number of image layers.
    pub layers: usize,
    /// The format of the image.
    pub format: i32,
    /// The type of image.
    pub image_type: i32,
    /// The image usage.
    pub usage: u32,
    /// The number of samples.
    pub sample_count: u32,
    /// Device creation flags for the image.
    pub create_flags: u32,
    /// Miscellaneous options for the image.
    pub misc_flags: u16,
    /// The initial layout that the image should be created with.
    pub initial_layout: i32,
    /// The component swizzle.
    pub swizzle: ComponentMapping,
}

/// The creation parameters every builder starts from.
pub open spec fn spec_default_image_create_info() -> ImageCreateInfo {
    ImageCreateInfo {
        domain: ImageUsageDomain::Physical,
        width: 0,
        height: 0,
        depth: 0,
        levels: 1,
        layers: 1,
        format: FORMAT_UNDEFINED,
        image_type: IMAGE_TYPE_2D,
        usage: 0,
        sample_count: SAMPLE_COUNT_1,
        create_flags: 0,
        misc_flags: 0,
        initial_layout: IMAGE_LAYOUT_GENERAL,
        swizzle: spec_rgba_mapping(),
    }
}

impl Default for ImageCreateInfo {
    /// A persistent, two-dimensional, single-sample image with undefined
    /// format and zero extent, in the general layout.
    fn default() -> (r: ImageCreateInfo)
        ensures
            r == spec_default_image_create_info(),
    {
        ImageCreateInfo {
            domain: ImageUsageDomain::Physical,
            width: 0,
            height: 0,
            depth: 0,
            levels: 1,
            layers: 1,
            format: FORMAT_UNDEFINED,
            image_type: IMAGE_TYPE_2D,
            usage: 0,
            sample_count: SAMPLE_COUNT_1,
            create_flags: 0,
            misc_flags: 0,
            initial_layout: IMAGE_LAYOUT_GENERAL,
            swizzle: ComponentMapping {
                r: COMPONENT_SWIZZLE_R,
                g: COMPONENT_SWIZZLE_G,
                b: COMPONENT_SWIZZLE_B,
                a: COMPONENT_SWIZZLE_A,
            },
        }
    }
}

impl ImageCreateInfo {
    /// Make an ImageCreateInfo suitable for an immutable, 2d image using
    /// sensible defaults.
    pub fn immutable_2d_image(width: usize, height: usize, format: i32, generate_mips: bool) -> (r:
        ImageCreateInfo)
        ensures
            r == Self::spec_immutable_2d_image(width, height, format, generate_mips),
    {
        let base = ImageCreateInfo::default();
        ImageCreateInfo {
            width,
            height,
            depth: 1,
            levels: if generate_mips {
                0
            } else {
                1
            },
            usage: IMAGE_USAGE_SAMPLED,
            format,
            misc_flags: if generate_mips {
                MISC_IMAGE_GENERATE_MIPS
            } else {
                0
            },
            ..base
        }
    }

    /// Make an ImageCreateInfo suitable for an immutable, 3d image using
    /// sensible defaults.
    pub fn immutable_3d_image(
        width: usize,
        height: usize,
        depth: usize,
        format: i32,
        generate_mips: bool,
    ) -> (r: ImageCreateInfo)
        ensures
            r == (ImageCreateInfo {
                depth,
                image_type: IMAGE_TYPE_3D,
                ..Self::spec_immutable_2d_image(width, height, format, generate_mips)
            }),
    {
        let mut info = Self::immutable_2d_image(width, height, format, generate_mips);
        info.depth = depth;
        info.image_type = IMAGE_TYPE_3D;
        info
    }

    /// What `immutable_2d_image` builds.
    pub open spec fn spec_immutable_2d_image(
        width: usize,
        height: usize,
        format: i32,
        generate_mips: bool,
    ) -> ImageCreateInfo {
        ImageCreateInfo {
            width,
            height,
            depth: 1usize,
            levels: if generate_mips {
                0usize
            } else {
                1usize
            },
            usage: IMAGE_USAGE_SAMPLED,
            format,
            misc_flags: if generate_mips {
                MISC_IMAGE_GENERATE_MIPS
            } else {
                0u16
            },
            ..spec_default_image_create_info()
        }
    }

    /// Make an ImageCreateInfo suitable for a render target using
    /// sensible defaults: a transfer-capable color or depth/stencil
    /// attachment, chosen by the format's aspect.
    pub fn render_target(width: usize, height: usize, format: i32, transient: bool) -> (r:
        ImageCreateInfo)
        ensures
            r == (ImageCreateInfo {
                domain: if transient {
                    ImageUsageDomain::Transient
                } else {
                    ImageUsageDomain::Physical
                },
                width,
                height,
                depth: 1usize,
                format,
                usage: IMAGE_USAGE_TRANSFER_SRC | IMAGE_USAGE_TRANSFER_DST | if
                    spec_format_has_depth_aspect(format) || spec_format_has_stencil_aspect(
                    format,
                ) {
                    IMAGE_USAGE_DEPTH_STENCIL_ATTACHMENT
                } else {
                    IMAGE_USAGE_COLOR_ATTACHMENT
                },
                initial_layout: if transient {
                    IMAGE_LAYOUT_UNDEFINED
                } else {
                    IMAGE_LAYOUT_GENERAL
                },
                ..spec_default_image_create_info()
            }),
    {
        let mut usage: u32 = IMAGE_USAGE_TRANSFER_SRC | IMAGE_USAGE_TRANSFER_DST;
        if format_has_depth_or_stencil_aspect(format) {
            usage = usage | IMAGE_USAGE_DEPTH_STENCIL_ATTACHMENT;
        } else {
            usage = usage | IMAGE_USAGE_COLOR_ATTACHMENT;
        }
        let base = ImageCreateInfo::default();
        ImageCreateInfo {
            domain: if transient {
                ImageUsageDomain::Transient
            } else {
                ImageUsageDomain::Physical
            },
            width,
            height,
            depth: 1,
            format,
            usage,
            initial_layout: if transient {
                IMAGE_LAYOUT_UNDEFINED
            } else {
                IMAGE_LAYOUT_GENERAL
            },
            ..base
        }
    }
}

/// The type of layout that an image is in. Can either be the optimal
/// layout for a given access type or the general layout which is usable
/// for any access.
#[derive(Clone, Copy, Debug, Eq, PartialEq, Structural, Hash)]
pub enum ImageLayoutType {
    /// An optimal, access-specific layout.
    Optimal,
    /// The general layout.
    General,
}

impl ImageLayoutType {
    /// Get the actual layout given a specific optimal layout.
    pub fn layout(self, optimal_layout: i32) -> (r: i32)
        ensures
            r == if self is Optimal {
                optimal_layout
            } else {
                IMAGE_LAYOUT_GENERAL
            },
    {
        if self == ImageLayoutType::Optimal {
            optimal_layout
        } else {
            IMAGE_LAYOUT_GENERAL
        }
    }
}

/// An owned image and associated data: the raw device handle, the
/// allocation backing it, and the views carved from it. Destroyed only by
/// an explicit call that hands the raw handles back.
#[derive(Debug)]
pub struct Image {
    /// Raw device image handle.
    pub image: u64,
    /// Allocator-side allocation handle.
    pub allocation: u64,
    /// What the allocator reported about the allocation.
    pub allocation_info: AllocationInfo,
    /// The creation parameters this image was made with.
    pub create_info: ImageCreateInfo,
    /// The automatically created view, if any.
    pub view: Option<ImageView>,
    /// Whether the image sits in an optimal or the general layout.
    pub layout_type: ImageLayoutType,
    /// Pipeline stages that may touch the image.
    pub stage_flags: u32,
    /// Access kinds that may touch the image.
    pub access_flags: u32,
    /// The layout the swapchain expects the image in.
    pub swapchain_layout: i32,
    /// Optional diagnostic tag.
    pub tag: Option<Tag>,
}

/// The extent `x` shrunk to a level of detail: halved `lod` times,
/// clamped at one pixel.
pub open spec fn spec_extent_lod(x: usize, lod: usize) -> usize {
    let shrunk = x >> lod;
    if shrunk == 0 {
        1usize
    } else {
        shrunk
    }
}

impl Image {
    /// Assemble an owned image record from what the device allocation
    /// gateway handed back.
    pub fn new(
        image: u64,
        allocation: u64,
        allocation_info: AllocationInfo,
        create_info: ImageCreateInfo,
        view: Option<ImageView>,
        layout_type: ImageLayoutType,
        stage_flags: u32,
        access_flags: u32,
        swapchain_layout: i32,
        tag: Option<Tag>,
    ) -> (r: Image)
        ensures
            r.image == image,
            r.allocation == allocation,
            r.allocation_info == allocation_info,
            r.create_info == create_info,
            r.view == view,
            r.layout_type == layout_type,
            r.stage_flags == stage_flags,
            r.access_flags == access_flags,
            r.swapchain_layout == swapchain_layout,
            r.tag == tag,
    {
        Image {
            image,
            allocation,
            allocation_info,
            create_info,
            view,
            layout_type,
            stage_flags,
            access_flags,
            swapchain_layout,
            tag,
        }
    }

    /// Get the width of this image.
    pub fn width(&self) -> (r: usize)
        ensures
            r == self.create_info.width,
    {
        self.create_info.width
    }

    /// Get the width of this image at a given level of detail, also known
    /// as a mip level.
    pub fn width_lod(&self, lod: usize) -> (r: usize)
        requires
            lod < usize::BITS,
        ensures
            r == spec_extent_lod(self.create_info.width, lod),
    {
        let shrunk = self.create_info.width >> lod;
        if shrunk == 0 {
            1
        } else {
            shrunk
        }
    }

    /// Get the height of this image.
    pub fn height(&self) -> (r: usize)
        ensures
            r == self.create_info.height,
    {
        self.create_info.height
    }

    /// Get the height of this image at a given level of detail, also
    /// known as a mip level.
    pub fn height_lod(&self, lod: usize) -> (r: usize)
        requires
            lod < usize::BITS,
        ensures
            r == spec_extent_lod(self.create_info.height, lod),
    {
        let shrunk = self.create_info.height >> lod;
        if shrunk == 0 {
            1
        } else {
            shrunk
        }
    }

    /// Get the depth of this image.
    pub fn depth(&self) -> (r: usize)
        ensures
            r == self.create_info.depth,
    {
        self.create_info.depth
    }

    /// Get the depth of this image at a given level of detail, also known
    /// as a mip level.
    pub fn depth_lod(&self, lod: usize) -> (r: usize)
        requires
            lod < usize::BITS,
        ensures
            r == spec_extent_lod(self.create_info.depth, lod),
    {
        let shrunk = self.create_info.depth >> lod;
        if shrunk == 0 {
            1
        } else {
            shrunk
        }
    }

    /// Get the ImageCreateInfo used to create this image.
    pub fn create_info(&self) -> (r: ImageCreateInfo)
        ensures
            r == self.create_info,
    {
        self.create_info
    }

    /// Get the layout of this image given a concrete optimal layout.
    pub fn layout(&self, optimal_layout: i32) -> (r: i32)
        ensures
            r == if self.layout_type is Optimal {
                optimal_layout
            } else {
                IMAGE_LAYOUT_GENERAL
            },
    {
        self.layout_type.layout(optimal_layout)
    }

    /// Explicitly destroy this image: consume the record and hand the raw
    /// image and allocation handles, and the owned view record if any,
    /// back to the caller for the device-side teardown.
    pub fn destroy(self) -> (r: (u64, u64, Option<ImageView>))
        ensures
            r.0 == self.image,
            r.1 == self.allocation,
            r.2 == self.view,
    {
        (self.image, self.allocation, self.view)
    }
}

/// A width, height and depth in pixels.
#[derive(Clone, Copy, Debug, Eq, PartialEq, Structural, Hash)]
pub struct Extent3D {
    /// Width in pixels.
    pub width: u32,
    /// Height in pixels.
    pub height: u32,
    /// Depth in pixels.
    pub depth: u32,
}

/// How many times `x` can be halved before reaching zero: the number of
/// mip levels an extent of `x` supports.
pub open spec fn spec_mip_chain_len(x: u32) -> nat
    decreases x,
{
    if x == 0 {
        0nat
    } else {
        1nat + spec_mip_chain_len(x / 2)
    }
}

proof fn lemma_mip_chain_len_bound(x: u32, k: nat)
    requires
        x < vstd::arithmetic::power2::pow2(k),
    ensures
        spec_mip_chain_len(x) <= k,
    decreases k,
{
    if x > 0 {
        vstd::arithmetic::power2::lemma2_to64();
        vstd::arithmetic::power2::lemma_pow2_unfold(k);
        lemma_mip_chain_len_bound(x / 2, (k - 1) as nat);
    }
}

/// Get the number of possible mip levels for an image given its extent.
pub fn mip_levels_from_extent(extent: Extent3D) -> (r: u32)
    ensures
        r == spec_mip_chain_len(
            if extent.width >= extent.height && extent.width >= extent.depth {
                extent.width
            } else if extent.height >= extent.depth {
                extent.height
            } else {
                extent.depth
            },
        ),
{
    let mut largest: u32 = extent.width;
    if extent.height > largest {
        largest = extent.height;
    }
    if extent.depth > largest {
        largest = extent.depth;
    }
    let ghost start = largest;

    proof {
        vstd::arithmetic::power2::lemma2_to64();
        lemma_mip_chain_len_bound(start, 32);
    }

    let mut levels: u32 = 0;

    while largest != 0
        invariant
            levels + spec_mip_chain_len(largest) == spec_mip_chain_len(start),
            spec_mip_chain_len(start) <= 32,
        decreases largest,
    {
        proof {
            vstd::arithmetic::power2::lemma2_to64();
            vstd::bits::lemma_u32_shr_is_div(largest, 1);
        }
        levels = levels + 1;
        largest = largest >> 1;
    }

    levels
}

/// The format features an image of the given usage relies on.
pub open spec fn spec_image_usage_to_features(usage: u32) -> u32 {
    let f0 = 0u32;
    let f1 = if usage & IMAGE_USAGE_SAMPLED == IMAGE_USAGE_SAMPLED {
        f0 | FORMAT_FEATURE_SAMPLED_IMAGE
    } else {
        f0
    };
    let f2 = if usage & IMAGE_USAGE_STORAGE == IMAGE_USAGE_STORAGE {
        f1 | FORMAT_FEATURE_STORAGE_IMAGE
    } else {
        f1
    };
    let f3 = if usage & IMAGE_USAGE_COLOR_ATTACHMENT == IMAGE_USAGE_COLOR_ATTACHMENT {
        f2 | FORMAT_FEATURE_COLOR_ATTACHMENT
    } else {
        f2
    };
    if usage & IMAGE_USAGE_DEPTH_STENCIL_ATTACHMENT == IMAGE_USAGE_DEPTH_STENCIL_ATTACHMENT {
        f3 | FORMAT_FEATURE_DEPTH_STENCIL_ATTACHMENT
    } else {
        f3
    }
}

/// Extract the format features needed for a given image usage.
pub fn image_usage_to_features(usage: u32) -> (r: u32)
    ensures
        r == spec_image_usage_to_features(usage),
{
    let mut flags: u32 = 0;

    if usage & IMAGE_USAGE_SAMPLED == IMAGE_USAGE_SAMPLED {
        flags = flags | FORMAT_FEATURE_SAMPLED_IMAGE;
    }
    if usage & IMAGE_USAGE_STORAGE == IMAGE_USAGE_STORAGE {
        flags = flags | FORMAT_FEATURE_STORAGE_IMAGE;
    }
    if usage & IMAGE_USAGE_COLOR_ATTACHMENT == IMAGE_USAGE_COLOR_ATTACHMENT {
        flags = flags | FORMAT_FEATURE_COLOR_ATTACHMENT;
    }
    if usage & IMAGE_USAGE_DEPTH_STENCIL_ATTACHMENT == IMAGE_USAGE_DEPTH_STENCIL_ATTACHMENT {
        flags = flags | FORMAT_FEATURE_DEPTH_STENCIL_ATTACHMENT;
    }

    flags
}

/// All pipeline stages that could touch an image of the given usage. A
/// transient attachment can only ever be an attachment, so its stages are
/// cut down to the attachment ones.
pub open spec fn spec_image_usage_to_possible_stages(usage: u32) -> u32 {
    let s0 = 0u32;
    let s1 = if usage & (IMAGE_USAGE_TRANSFER_SRC | IMAGE_USAGE_TRANSFER_DST) != 0 {
        s0 | PIPELINE_STAGE_TRANSFER
    } else {
        s0
    };
    let s2 = if usage & IMAGE_USAGE_SAMPLED != 0 {
        s1 | PIPELINE_STAGE_COMPUTE_SHADER | PIPELINE_STAGE_VERTEX_SHADER
            | PIPELINE_STAGE_FRAGMENT_SHADER
    } else {
        s1
    };
    let s3 = if usage & IMAGE_USAGE_STORAGE != 0 {
        s2 | PIPELINE_STAGE_COMPUTE_SHADER
    } else {
        s2
    };
    let s4 = if usage & IMAGE_USAGE_COLOR_ATTACHMENT != 0 {
        s3 | PIPELINE_STAGE_COLOR_ATTACHMENT_OUTPUT
    } else {
        s3
    };
    let s5 = if usage & IMAGE_USAGE_DEPTH_STENCIL_ATTACHMENT != 0 {
        s4 | PIPELINE_STAGE_EARLY_FRAGMENT_TESTS | PIPELINE_STAGE_LATE_FRAGMENT_TESTS
    } else {
        s4
    };
    let s6 = if usage & IMAGE_USAGE_INPUT_ATTACHMENT != 0 {
        s5 | PIPELINE_STAGE_FRAGMENT_SHADER
    } else {
        s5
    };
    if usage & IMAGE_USAGE_TRANSIENT_ATTACHMENT != 0 {
        let possible = PIPELINE_STAGE_COLOR_ATTACHMENT_OUTPUT | PIPELINE_STAGE_EARLY_FRAGMENT_TESTS
            | PIPELINE_STAGE_LATE_FRAGMENT_TESTS;
        let possible2 = if usage & IMAGE_USAGE_INPUT_ATTACHMENT != 0 {
            possible | PIPELINE_STAGE_FRAGMENT_SHADER
        } else {
            possible
        };
        s6 & possible2
    } else {
        s6
    }
}

/// Get all possible pipeline stages for a given image usage.
pub fn image_usage_to_possible_stages(usage: u32) -> (r: u32)
    ensures
        r == spec_image_usage_to_possible_stages(usage),
{
    let mut flags: u32 = 0;

    if usage & (IMAGE_USAGE_TRANSFER_SRC | IMAGE_USAGE_TRANSFER_DST) != 0 {
        flags = flags | PIPELINE_STAGE_TRANSFER;
    }
    if usage & IMAGE_USAGE_SAMPLED != 0 {
        flags = flags | PIPELINE_STAGE_COMPUTE_SHADER | PIPELINE_STAGE_VERTEX_SHADER
            | PIPELINE_STAGE_FRAGMENT_SHADER;
    }
    if usage & IMAGE_USAGE_STORAGE != 0 {
        flags = flags | PIPELINE_STAGE_COMPUTE_SHADER;
    }
    if usage & IMAGE_USAGE_COLOR_ATTACHMENT != 0 {
        flags = flags | PIPELINE_STAGE_COLOR_ATTACHMENT_OUTPUT;
    }
    if usage & IMAGE_USAGE_DEPTH_STENCIL_ATTACHMENT != 0 {
        flags = flags | PIPELINE_STAGE_EARLY_FRAGMENT_TESTS | PIPELINE_STAGE_LATE_FRAGMENT_TESTS;
    }
    if usage & IMAGE_USAGE_INPUT_ATTACHMENT != 0 {
        flags = flags | PIPELINE_STAGE_FRAGMENT_SHADER;
    }

    if usage & IMAGE_USAGE_TRANSIENT_ATTACHMENT != 0 {
        let mut possible: u32 = PIPELINE_STAGE_COLOR_ATTACHMENT_OUTPUT
            | PIPELINE_STAGE_EARLY_FRAGMENT_TESTS | PIPELINE_STAGE_LATE_FRAGMENT_TESTS;

        if usage & IMAGE_USAGE_INPUT_ATTACHMENT != 0 {
            possible = possible | PIPELINE_STAGE_FRAGMENT_SHADER;
        }

        flags = flags & possible;
    }

    flags
}

/// All access kinds an image layout admits.
pub open spec fn spec_image_layout_to_possible_access(layout: i32) -> u32 {
    if layout == IMAGE_LAYOUT_SHADER_READ_ONLY_OPTIMAL {
        ACCESS_SHADER_READ | ACCESS_INPUT_ATTACHMENT_READ
    } else if layout == IMAGE_LAYOUT_COLOR_ATTACHMENT_OPTIMAL {
        ACCESS_COLOR_ATTACHMENT_READ | ACCESS_COLOR_ATTACHMENT_WRITE
    } else if layout == IMAGE_LAYOUT_DEPTH_STENCIL_ATTACHMENT_OPTIMAL {
        ACCESS_DEPTH_STENCIL_ATTACHMENT_READ | ACCESS_DEPTH_STENCIL_ATTACHMENT_WRITE
    } else if layout == IMAGE_LAYOUT_DEPTH_ATTACHMENT_STENCIL_READ_ONLY_OPTIMAL {
        ACCESS_INPUT_ATTACHMENT_READ | ACCESS_DEPTH_STENCIL_ATTACHMENT_READ
    } else if layout == IMAGE_LAYOUT_TRANSFER_SRC_OPTIMAL {
        ACCESS_TRANSFER_READ
    } else if layout == IMAGE_LAYOUT_TRANSFER_DST_OPTIMAL {
        ACCESS_TRANSFER_WRITE
    } else {
        0u32
    }
}

/// Get all possible access kinds for a given image layout.
pub fn image_layout_to_possible_access(layout: i32) -> (r: u32)
    ensures
        r == spec_image_layout_to_possible_access(layout),
{
    if layout == IMAGE_LAYOUT_SHADER_READ_ONLY_OPTIMAL {
        ACCESS_SHADER_READ | ACCESS_INPUT_ATTACHMENT_READ
    } else if layout == IMAGE_LAYOUT_COLOR_ATTACHMENT_OPTIMAL {
        ACCESS_COLOR_ATTACHMENT_READ | ACCESS_COLOR_ATTACHMENT_WRITE
    } else if layout == IMAGE_LAYOUT_DEPTH_STENCIL_ATTACHMENT_OPTIMAL {
        ACCESS_DEPTH_STENCIL_ATTACHMENT_READ | ACCESS_DEPTH_STENCIL_ATTACHMENT_WRITE
    } else if layout == IMAGE_LAYOUT_DEPTH_ATTACHMENT_STENCIL_READ_ONLY_OPTIMAL {
        ACCESS_INPUT_ATTACHMENT_READ | ACCESS_DEPTH_STENCIL_ATTACHMENT_READ
    } else if layout == IMAGE_LAYOUT_TRANSFER_SRC_OPTIMAL {
        ACCESS_TRANSFER_READ
    } else if layout == IMAGE_LAYOUT_TRANSFER_DST_OPTIMAL {
        ACCESS_TRANSFER_WRITE
    } else {
        0
    }
}

/// All access kinds that could touch an image of the given usage. A
/// transient attachment can only ever be an attachment, so its accesses
/// are cut down to the attachment ones.
pub open spec fn spec_image_usage_to_possible_access(usage: u32) -> u32 {
    let a0 = 0u32;
    let a1 = if usage & (IMAGE_USAGE_TRANSFER_SRC | IMAGE_USAGE_TRANSFER_DST) != 0 {
        a0 | ACCESS_TRANSFER_READ | ACCESS_TRANSFER_WRITE
    } else {
        a0
    };
    let a2 = if usage & IMAGE_USAGE_SAMPLED != 0 {
        a1 | ACCESS_SHADER_READ
    } else {
        a1
    };
    let a3 = if usage & IMAGE_USAGE_STORAGE != 0 {
        a2 | ACCESS_SHADER_READ | ACCESS_SHADER_WRITE
    } else {
        a2
    };
    let a4 = if usage & IMAGE_USAGE_COLOR_ATTACHMENT != 0 {
        a3 | ACCESS_COLOR_ATTACHMENT_READ | ACCESS_COLOR_ATTACHMENT_WRITE
    } else {
        a3
    };
    let a5 = if usage & IMAGE_USAGE_DEPTH_STENCIL_ATTACHMENT != 0 {
        a4 | ACCESS_DEPTH_STENCIL_ATTACHMENT_READ | ACCESS_DEPTH_STENCIL_ATTACHMENT_WRITE
    } else {
        a4
    };
    let a6 = if usage & IMAGE_USAGE_INPUT_ATTACHMENT != 0 {
        a5 | ACCESS_INPUT_ATTACHMENT_READ
    } else {
        a5
    };
    if usage & IMAGE_USAGE_TRANSIENT_ATTACHMENT != 0 {
        a6 & (ACCESS_COLOR_ATTACHMENT_READ | ACCESS_COLOR_ATTACHMENT_WRITE
            | ACCESS_DEPTH_STENCIL_ATTACHMENT_READ | ACCESS_DEPTH_STENCIL_ATTACHMENT_WRITE
            | ACCESS_INPUT_ATTACHMENT_READ)
    } else {
        a6
    }
}

/// Get possible access kinds for a given image usage.
pub fn image_usage_to_possible_access(usage: u32) -> (r: u32)
    ensures
        r == spec_image_usage_to_possible_access(usage),
{
    let mut flags: u32 = 0;

    if usage & (IMAGE_USAGE_TRANSFER_SRC | IMAGE_USAGE_TRANSFER_DST) != 0 {
        flags = flags | ACCESS_TRANSFER_READ | ACCESS_TRANSFER_WRITE;
    }
    if usage & IMAGE_USAGE_SAMPLED != 0 {
        flags = flags | ACCESS_SHADER_READ;
    }
    if usage & IMAGE_USAGE_STORAGE != 0 {
        flags = flags | ACCESS_SHADER_READ | ACCESS_SHADER_WRITE;
    }
    if usage & IMAGE_USAGE_COLOR_ATTACHMENT != 0 {
        flags = flags | ACCESS_COLOR_ATTACHMENT_READ | ACCESS_COLOR_ATTACHMENT_WRITE;
    }
    if usage & IMAGE_USAGE_DEPTH_STENCIL_ATTACHMENT != 0 {
        flags = flags | ACCESS_DEPTH_STENCIL_ATTACHMENT_READ
            | ACCESS_DEPTH_STENCIL_ATTACHMENT_WRITE;
    }
    if usage & IMAGE_USAGE_INPUT_ATTACHMENT != 0 {
        flags = flags | ACCESS_INPUT_ATTACHMENT_READ;
    }

    // A transient attachment can only be an attachment, never another
    // kind of resource.
    if usage & IMAGE_USAGE_TRANSIENT_ATTACHMENT != 0 {
        flags = flags & (ACCESS_COLOR_ATTACHMENT_READ | ACCESS_COLOR_ATTACHMENT_WRITE
            | ACCESS_DEPTH_STENCIL_ATTACHMENT_READ | ACCESS_DEPTH_STENCIL_ATTACHMENT_WRITE
            | ACCESS_INPUT_ATTACHMENT_READ);
    }

    flags
}

} // verus!
