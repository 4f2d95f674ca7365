use vkrender::image::{
    check_mipmap_support, depth_format_candidates, find_depth_format, find_supported_format, generate_mipmaps,
    get_max_usable_sample_count, has_stencil_component, mip_levels, texture_byte_size, transition_image_layout,
    FormatProperties, ImageTiling, TextureError, ACCESS_COLOR_ATTACHMENT_READ, ACCESS_COLOR_ATTACHMENT_WRITE,
    ACCESS_SHADER_READ, ACCESS_TRANSFER_READ, ACCESS_TRANSFER_WRITE, FEATURE_DEPTH_STENCIL_ATTACHMENT,
    FEATURE_SAMPLED_IMAGE_FILTER_LINEAR, FORMAT_D24_UNORM_S8_UINT, FORMAT_D32_SFLOAT, FORMAT_D32_SFLOAT_S8_UINT,
    LAYOUT_COLOR_ATTACHMENT_OPTIMAL, LAYOUT_SHADER_READ_ONLY_OPTIMAL, LAYOUT_TRANSFER_DST_OPTIMAL,
    LAYOUT_TRANSFER_SRC_OPTIMAL, LAYOUT_UNDEFINED, STAGE_COLOR_ATTACHMENT_OUTPUT, STAGE_FRAGMENT_SHADER,
    STAGE_TOP_OF_PIPE, STAGE_TRANSFER,
};

#[test]
fn layout_transition_to_transfer_dst() {
    let b = transition_image_layout(LAYOUT_UNDEFINED, LAYOUT_TRANSFER_DST_OPTIMAL, 10).unwrap();
    assert_eq!(b.base_mip_level, 0);
    assert_eq!(b.level_count, 10);
    assert_eq!(b.src_access_mask, 0);
    assert_eq!(b.dst_access_mask, ACCESS_TRANSFER_WRITE);
    assert_eq!(b.src_stage, STAGE_TOP_OF_PIPE);
    assert_eq!(b.dst_stage, STAGE_TRANSFER);
}

#[test]
fn layout_transition_to_shader_read() {
    let b = transition_image_layout(LAYOUT_TRANSFER_DST_OPTIMAL, LAYOUT_SHADER_READ_ONLY_OPTIMAL, 1).unwrap();
    assert_eq!(b.src_access_mask, ACCESS_TRANSFER_WRITE);
    assert_eq!(b.dst_access_mask, ACCESS_SHADER_READ);
    assert_eq!(b.src_stage, STAGE_TRANSFER);
    assert_eq!(b.dst_stage, STAGE_FRAGMENT_SHADER);
    assert_eq!(b.old_layout, LAYOUT_TRANSFER_DST_OPTIMAL);
    assert_eq!(b.new_layout, LAYOUT_SHADER_READ_ONLY_OPTIMAL);
}

#[test]
fn layout_transition_to_color_attachment() {
    let b = transition_image_layout(LAYOUT_UNDEFINED, LAYOUT_COLOR_ATTACHMENT_OPTIMAL, 1).unwrap();
    assert_eq!(b.dst_access_mask, ACCESS_COLOR_ATTACHMENT_READ | ACCESS_COLOR_ATTACHMENT_WRITE);
    assert_eq!(b.dst_access_mask, 0x180);
    assert_eq!(b.dst_stage, STAGE_COLOR_ATTACHMENT_OUTPUT);
}

#[test]
fn layout_transition_unsupported_pair() {
    assert_eq!(transition_image_layout(LAYOUT_SHADER_READ_ONLY_OPTIMAL, LAYOUT_UNDEFINED, 1), None);
    assert_eq!(transition_image_layout(LAYOUT_TRANSFER_SRC_OPTIMAL, LAYOUT_TRANSFER_DST_OPTIMAL, 1), None);
}

#[test]
fn mip_level_counts() {
    assert_eq!(mip_levels(512, 256), 10);
    assert_eq!(mip_levels(300, 1000), 10);
    assert_eq!(mip_levels(1024, 1024), 11);
    assert_eq!(mip_levels(1, 1), 1);
    assert_eq!(mip_levels(0, 0), 1);
    assert_eq!(mip_levels(u32::MAX, 1), 32);
}

#[test]
fn mip_chain_halves_each_level() {
    let plan = generate_mipmaps(4, 3, 3);
    assert_eq!(plan.steps.len(), 2);
    let s0 = plan.steps[0];
    assert_eq!((s0.src_level, s0.dst_level), (0, 1));
    assert_eq!((s0.src_width, s0.src_height, s0.dst_width, s0.dst_height), (4, 3, 2, 1));
    assert_eq!(s0.before.old_layout, LAYOUT_TRANSFER_DST_OPTIMAL);
    assert_eq!(s0.before.new_layout, LAYOUT_TRANSFER_SRC_OPTIMAL);
    assert_eq!(s0.before.src_access_mask, ACCESS_TRANSFER_WRITE);
    assert_eq!(s0.before.dst_access_mask, ACCESS_TRANSFER_READ);
    assert_eq!(s0.after.new_layout, LAYOUT_SHADER_READ_ONLY_OPTIMAL);
    assert_eq!(s0.after.dst_stage, STAGE_FRAGMENT_SHADER);
    assert_eq!(s0.after.base_mip_level, 0);
    let s1 = plan.steps[1];
    assert_eq!((s1.src_level, s1.dst_level), (1, 2));
    assert_eq!((s1.src_width, s1.src_height, s1.dst_width, s1.dst_height), (2, 1, 1, 1));
    assert_eq!(plan.last.base_mip_level, 2);
    assert_eq!(plan.last.old_layout, LAYOUT_TRANSFER_DST_OPTIMAL);
    assert_eq!(plan.last.new_layout, LAYOUT_SHADER_READ_ONLY_OPTIMAL);
    assert_eq!(plan.last.level_count, 1);
}

#[test]
fn mip_chain_single_level() {
    let plan = generate_mipmaps(1, 1, 1);
    assert!(plan.steps.is_empty());
    assert_eq!(plan.last.base_mip_level, 0);
}

#[test]
fn texture_sizes() {
    assert_eq!(texture_byte_size(512, 256), Ok(512 * 256 * 4));
    assert_eq!(texture_byte_size(0, 256), Err(TextureError::Empty));
    assert_eq!(texture_byte_size(256, 0), Err(TextureError::Empty));
    assert_eq!(texture_byte_size(u32::MAX, u32::MAX), Err(TextureError::TooLarge));
    assert_eq!(texture_byte_size(u32::MAX, 1), Ok(4 * u32::MAX as u64));
}

#[test]
fn sample_count_highest_common() {
    assert_eq!(get_max_usable_sample_count(0b1111111, 0b1111), 0b1000);
    assert_eq!(get_max_usable_sample_count(0b0101, 0b1111), 0b0100);
    assert_eq!(get_max_usable_sample_count(0b1, 0b1), 1);
    assert_eq!(get_max_usable_sample_count(0b1000000, 0b1111111), 0b1000000);
}

#[test]
fn depth_format_first_supported() {
    let c = depth_format_candidates();
    assert_eq!(c, vec![FORMAT_D32_SFLOAT, FORMAT_D32_SFLOAT_S8_UINT, FORMAT_D24_UNORM_S8_UINT]);
    let props = vec![
        FormatProperties { format: FORMAT_D32_SFLOAT, linear_tiling_features: FEATURE_DEPTH_STENCIL_ATTACHMENT, optimal_tiling_features: 0 },
        FormatProperties { format: FORMAT_D32_SFLOAT_S8_UINT, linear_tiling_features: 0, optimal_tiling_features: FEATURE_DEPTH_STENCIL_ATTACHMENT | 1 },
        FormatProperties { format: FORMAT_D24_UNORM_S8_UINT, linear_tiling_features: 0, optimal_tiling_features: FEATURE_DEPTH_STENCIL_ATTACHMENT },
    ];
    assert_eq!(find_depth_format(&props), Some(FORMAT_D32_SFLOAT_S8_UINT));
    assert_eq!(find_supported_format(&props, ImageTiling::Linear, FEATURE_DEPTH_STENCIL_ATTACHMENT), Some(FORMAT_D32_SFLOAT));
    assert_eq!(find_supported_format(&props, ImageTiling::Optimal, 0x4000), None);
}

#[test]
fn stencil_and_mipmap_support() {
    assert!(has_stencil_component(FORMAT_D24_UNORM_S8_UINT));
    assert!(has_stencil_component(FORMAT_D32_SFLOAT_S8_UINT));
    assert!(!has_stencil_component(FORMAT_D32_SFLOAT));
    assert!(check_mipmap_support(FEATURE_SAMPLED_IMAGE_FILTER_LINEAR | 0x1));
    assert!(!check_mipmap_support(0x1));
}
