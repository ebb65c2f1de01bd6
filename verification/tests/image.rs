use hot::arena::Handle;
use hot::flags;
use hot::gateway::AllocationInfo;
use hot::image::ImageCreateInfo;
use hot::image::ImageLayoutType;
use hot::image::ImageUsageDomain;
use hot::image::Image;
use hot::image::IMAGE_TYPE_2D;
use hot::image::IMAGE_TYPE_3D;
use hot::image::MISC_IMAGE_GENERATE_MIPS;

#[test]
fn default_create_info() {
    let info = ImageCreateInfo::default();
    assert_eq!(info.domain, ImageUsageDomain::Physical);
    assert_eq!(info.width, 0);
    assert_eq!(info.height, 0);
    assert_eq!(info.depth, 0);
    assert_eq!(info.levels, 1);
    assert_eq!(info.layers, 1);
    assert_eq!(info.format, hot::format::FORMAT_UNDEFINED);
    assert_eq!(info.image_type, IMAGE_TYPE_2D);
    assert_eq!(info.usage, 0);
    assert_eq!(info.sample_count, flags::SAMPLE_COUNT_1);
    assert_eq!(info.initial_layout, flags::IMAGE_LAYOUT_GENERAL);
    assert_eq!(info.swizzle.r, flags::COMPONENT_SWIZZLE_R);
    assert_eq!(info.swizzle.a, flags::COMPONENT_SWIZZLE_A);
}

#[test]
fn immutable_2d_image_with_mips() {
    let info = ImageCreateInfo::immutable_2d_image(256, 128, hot::format::FORMAT_R8G8B8A8_SRGB, true);
    assert_eq!(info.width, 256);
    assert_eq!(info.height, 128);
    assert_eq!(info.depth, 1);
    assert_eq!(info.levels, 0);
    assert_eq!(info.usage, flags::IMAGE_USAGE_SAMPLED);
    assert_eq!(info.misc_flags, MISC_IMAGE_GENERATE_MIPS);
    assert_eq!(info.image_type, IMAGE_TYPE_2D);
}

#[test]
fn immutable_2d_image_without_mips() {
    let info = ImageCreateInfo::immutable_2d_image(64, 64, hot::format::FORMAT_R8_SRGB, false);
    assert_eq!(info.levels, 1);
    assert_eq!(info.misc_flags, 0);
}

#[test]
fn immutable_3d_image_sets_depth_and_type() {
    let info = ImageCreateInfo::immutable_3d_image(32, 32, 8, hot::format::FORMAT_R8G8B8A8_SRGB, false);
    assert_eq!(info.depth, 8);
    assert_eq!(info.image_type, IMAGE_TYPE_3D);
    assert_eq!(info.usage, flags::IMAGE_USAGE_SAMPLED);
}

#[test]
fn render_target_color_format() {
    let info = ImageCreateInfo::render_target(800, 600, hot::format::FORMAT_B8G8R8A8_SRGB, false);
    assert_eq!(info.domain, ImageUsageDomain::Physical);
    assert_eq!(
        info.usage,
        flags::IMAGE_USAGE_TRANSFER_SRC | flags::IMAGE_USAGE_TRANSFER_DST
            | flags::IMAGE_USAGE_COLOR_ATTACHMENT
    );
    assert_eq!(info.initial_layout, flags::IMAGE_LAYOUT_GENERAL);
}

#[test]
fn render_target_transient_depth_format() {
    let info = ImageCreateInfo::render_target(800, 600, hot::format::FORMAT_D24_UNORM_S8_UINT, true);
    assert_eq!(info.domain, ImageUsageDomain::Transient);
    assert_eq!(
        info.usage,
        flags::IMAGE_USAGE_TRANSFER_SRC | flags::IMAGE_USAGE_TRANSFER_DST
            | flags::IMAGE_USAGE_DEPTH_STENCIL_ATTACHMENT
    );
    assert_eq!(info.initial_layout, flags::IMAGE_LAYOUT_UNDEFINED);
}

#[test]
fn layout_type_picks_optimal_or_general() {
    assert_eq!(
        ImageLayoutType::Optimal.layout(flags::IMAGE_LAYOUT_COLOR_ATTACHMENT_OPTIMAL),
        flags::IMAGE_LAYOUT_COLOR_ATTACHMENT_OPTIMAL
    );
    assert_eq!(
        ImageLayoutType::General.layout(flags::IMAGE_LAYOUT_COLOR_ATTACHMENT_OPTIMAL),
        flags::IMAGE_LAYOUT_GENERAL
    );
}

fn sample_image() -> Image {
    let mut info = ImageCreateInfo::immutable_2d_image(1024, 300, hot::format::FORMAT_R8G8B8A8_SRGB, false);
    info.depth = 1;
    Image::new(
        11,
        22,
        AllocationInfo { offset: 0, size: 4096, mapped_ptr: 0 },
        info,
        None,
        ImageLayoutType::Optimal,
        0,
        0,
        flags::IMAGE_LAYOUT_UNDEFINED,
        None,
    )
}

#[test]
fn image_extents_and_lods() {
    let image = sample_image();
    assert_eq!(image.width(), 1024);
    assert_eq!(image.height(), 300);
    assert_eq!(image.depth(), 1);
    assert_eq!(image.width_lod(2), 256);
    assert_eq!(image.width_lod(11), 1);
    assert_eq!(image.height_lod(5), 9);
    assert_eq!(image.depth_lod(3), 1);
}

#[test]
fn image_layout_and_destroy() {
    let image = sample_image();
    assert_eq!(
        image.layout(flags::IMAGE_LAYOUT_SHADER_READ_ONLY_OPTIMAL),
        flags::IMAGE_LAYOUT_SHADER_READ_ONLY_OPTIMAL
    );
    let (raw, allocation, view) = image.destroy();
    assert_eq!(raw, 11);
    assert_eq!(allocation, 22);
    assert!(view.is_none());
}

#[test]
fn image_create_info_getter() {
    let image = sample_image();
    let info = image.create_info();
    assert_eq!(info.width, 1024);
    assert_eq!(info.format, hot::format::FORMAT_R8G8B8A8_SRGB);
}

#[test]
fn handle_new_wraps_index() {
    let h = Handle::new(4, 7);
    assert_eq!(h.index, 4);
    assert_eq!(h.generation, 7);
}
