use hot::buffer::possible_accesses_from_usage;
use hot::buffer::possible_stages_from_usage;
use hot::flags;
use hot::image::image_layout_to_possible_access;
use hot::image::image_usage_to_features;
use hot::image::image_usage_to_possible_access;
use hot::image::image_usage_to_possible_stages;
use hot::image::mip_levels_from_extent;
use hot::image::Extent3D;

#[test]
fn srgb_formats_are_recognized() {
    assert!(hot::format::format_is_srgb(hot::format::FORMAT_R8G8B8A8_SRGB));
    assert!(hot::format::format_is_srgb(hot::format::FORMAT_B8G8R8A8_SRGB));
    assert!(hot::format::format_is_srgb(hot::format::FORMAT_A8B8G8R8_SRGB_PACK32));
    assert!(hot::format::format_is_srgb(hot::format::FORMAT_R8_SRGB));
    assert!(!hot::format::format_is_srgb(hot::format::FORMAT_D32_SFLOAT));
    assert!(!hot::format::format_is_srgb(hot::format::FORMAT_UNDEFINED));
}

#[test]
fn depth_and_stencil_aspects() {
    assert!(hot::format::format_has_depth_aspect(hot::format::FORMAT_D16_UNORM));
    assert!(hot::format::format_has_depth_aspect(hot::format::FORMAT_D32_SFLOAT_S8_UINT));
    assert!(!hot::format::format_has_depth_aspect(hot::format::FORMAT_S8_UINT));
    assert!(hot::format::format_has_stencil_aspect(hot::format::FORMAT_S8_UINT));
    assert!(hot::format::format_has_stencil_aspect(hot::format::FORMAT_D24_UNORM_S8_UINT));
    assert!(!hot::format::format_has_stencil_aspect(hot::format::FORMAT_D32_SFLOAT));
    assert!(hot::format::format_has_depth_or_stencil_aspect(hot::format::FORMAT_X8_D24_UNORM_PACK32));
    assert!(hot::format::format_has_depth_or_stencil_aspect(hot::format::FORMAT_S8_UINT));
    assert!(!hot::format::format_has_depth_or_stencil_aspect(hot::format::FORMAT_R8G8B8A8_SRGB));
}

#[test]
fn vertex_buffer_usage_maps_to_vertex_input_stage() {
    let stages = possible_stages_from_usage(flags::BUFFER_USAGE_VERTEX_BUFFER);
    assert_eq!(stages, flags::PIPELINE_STAGE_VERTEX_INPUT);
    assert_eq!(stages, 0x4);
}

#[test]
fn uniform_and_transfer_usage_stages() {
    let usage = flags::BUFFER_USAGE_TRANSFER_SRC | flags::BUFFER_USAGE_UNIFORM_BUFFER;
    let stages = possible_stages_from_usage(usage);
    assert_eq!(stages, 0x1888);
}

#[test]
fn buffer_usage_accesses() {
    let usage = flags::BUFFER_USAGE_VERTEX_BUFFER | flags::BUFFER_USAGE_INDEX_BUFFER;
    assert_eq!(possible_accesses_from_usage(usage), 0x6);
    assert_eq!(
        possible_accesses_from_usage(flags::BUFFER_USAGE_STORAGE_BUFFER),
        flags::ACCESS_SHADER_READ | flags::ACCESS_SHADER_WRITE
    );
    assert_eq!(possible_accesses_from_usage(0), 0);
}

#[test]
fn image_usage_features() {
    let usage = flags::IMAGE_USAGE_SAMPLED | flags::IMAGE_USAGE_COLOR_ATTACHMENT;
    assert_eq!(image_usage_to_features(usage), 0x81);
    assert_eq!(
        image_usage_to_features(flags::IMAGE_USAGE_DEPTH_STENCIL_ATTACHMENT),
        flags::FORMAT_FEATURE_DEPTH_STENCIL_ATTACHMENT
    );
}

#[test]
fn sampled_image_stages() {
    assert_eq!(image_usage_to_possible_stages(flags::IMAGE_USAGE_SAMPLED), 0x888);
}

#[test]
fn transient_attachment_masks_stages() {
    let color_transient =
        flags::IMAGE_USAGE_COLOR_ATTACHMENT | flags::IMAGE_USAGE_TRANSIENT_ATTACHMENT;
    assert_eq!(
        image_usage_to_possible_stages(color_transient),
        flags::PIPELINE_STAGE_COLOR_ATTACHMENT_OUTPUT
    );
    // A sampled transient image has no stage at all left: sampling is not
    // an attachment use.
    let sampled_transient = flags::IMAGE_USAGE_SAMPLED | flags::IMAGE_USAGE_TRANSIENT_ATTACHMENT;
    assert_eq!(image_usage_to_possible_stages(sampled_transient), 0);
}

#[test]
fn layout_accesses() {
    assert_eq!(
        image_layout_to_possible_access(flags::IMAGE_LAYOUT_SHADER_READ_ONLY_OPTIMAL),
        0x30
    );
    assert_eq!(
        image_layout_to_possible_access(flags::IMAGE_LAYOUT_TRANSFER_SRC_OPTIMAL),
        flags::ACCESS_TRANSFER_READ
    );
    assert_eq!(image_layout_to_possible_access(flags::IMAGE_LAYOUT_GENERAL), 0);
}

#[test]
fn image_usage_accesses_and_transient_mask() {
    let usage = flags::IMAGE_USAGE_SAMPLED | flags::IMAGE_USAGE_STORAGE;
    assert_eq!(image_usage_to_possible_access(usage), 0x60);

    let transient = flags::IMAGE_USAGE_COLOR_ATTACHMENT | flags::IMAGE_USAGE_TRANSFER_DST
        | flags::IMAGE_USAGE_TRANSIENT_ATTACHMENT;
    assert_eq!(
        image_usage_to_possible_access(transient),
        flags::ACCESS_COLOR_ATTACHMENT_READ | flags::ACCESS_COLOR_ATTACHMENT_WRITE
    );
}

#[test]
fn mip_levels_follow_the_largest_extent() {
    assert_eq!(
        mip_levels_from_extent(Extent3D { width: 1024, height: 512, depth: 1 }),
        11
    );
    assert_eq!(mip_levels_from_extent(Extent3D { width: 1, height: 1, depth: 1 }), 1);
    assert_eq!(mip_levels_from_extent(Extent3D { width: 0, height: 0, depth: 0 }), 0);
    assert_eq!(mip_levels_from_extent(Extent3D { width: 3, height: 7, depth: 2 }), 3);
}
