use vstd::prelude::*;

verus! {

/// `VK_IMAGE_LAYOUT_UNDEFINED`.
pub const LAYOUT_UNDEFINED: i32 = 0;
/// `VK_IMAGE_LAYOUT_COLOR_ATTACHMENT_OPTIMAL`.
pub const LAYOUT_COLOR_ATTACHMENT_OPTIMAL: i32 = 2;
/// `VK_IMAGE_LAYOUT_SHADER_READ_ONLY_OPTIMAL`.
pub const LAYOUT_SHADER_READ_ONLY_OPTIMAL: i32 = 5;
/// `VK_IMAGE_LAYOUT_TRANSFER_SRC_OPTIMAL`.
pub const LAYOUT_TRANSFER_SRC_OPTIMAL: i32 = 6;
/// `VK_IMAGE_LAYOUT_TRANSFER_DST_OPTIMAL`.
pub const LAYOUT_TRANSFER_DST_OPTIMAL: i32 = 7;

/// `VK_ACCESS_SHADER_READ_BIT`.
pub const ACCESS_SHADER_READ: u32 = 0x20;
/// `VK_ACCESS_COLOR_ATTACHMENT_READ_BIT`.
pub const ACCESS_COLOR_ATTACHMENT_READ: u32 = 0x80;
/// `VK_ACCESS_COLOR_ATTACHMENT_WRITE_BIT`.
pub const ACCESS_COLOR_ATTACHMENT_WRITE: u32 = 0x100;
/// `VK_ACCESS_TRANSFER_READ_BIT`.
pub const ACCESS_TRANSFER_READ: u32 = 0x800;
/// `VK_ACCESS_TRANSFER_WRITE_BIT`.
pub const ACCESS_TRANSFER_WRITE: u32 = 0x1000;

/// `VK_PIPELINE_STAGE_TOP_OF_PIPE_BIT`.
pub const STAGE_TOP_OF_PIPE: u32 = 0x1;
/// `VK_PIPELINE_STAGE_FRAGMENT_SHADER_BIT`.
pub const STAGE_FRAGMENT_SHADER: u32 = 0x80;
/// `VK_PIPELINE_STAGE_COLOR_ATTACHMENT_OUTPUT_BIT`.
pub const STAGE_COLOR_ATTACHMENT_OUTPUT: u32 = 0x400;
/// `VK_PIPELINE_STAGE_TRANSFER_BIT`.
pub const STAGE_TRANSFER: u32 = 0x1000;

/// `VK_FORMAT_D32_SFLOAT`.
pub const FORMAT_D32_SFLOAT: i32 = 126;
/// `VK_FORMAT_D24_UNORM_S8_UINT`.
pub const FORMAT_D24_UNORM_S8_UINT: i32 = 129;
/// `VK_FORMAT_D32_SFLOAT_S8_UINT`.
pub const FORMAT_D32_SFLOAT_S8_UINT: i32 = 130;

/// `VK_FORMAT_FEATURE_DEPTH_STENCIL_ATTACHMENT_BIT`.
pub const FEATURE_DEPTH_STENCIL_ATTACHMENT: u32 = 0x200;
/// `VK_FORMAT_FEATURE_SAMPLED_IMAGE_FILTER_LINEAR_BIT`.
pub const FEATURE_SAMPLED_IMAGE_FILTER_LINEAR: u32 = 0x1000;

/// `VK_SAMPLE_COUNT_1_BIT`.
pub const SAMPLE_COUNT_1: u32 = 0x1;

/// One image memory barrier on a range of mip levels of a colour image.
#[derive(Clone, Copy, PartialEq, Eq, Structural, Debug)]
pub struct ImageBarrier {
    pub base_mip_level: u32,
    pub level_count: u32,
    pub old_layout: i32,
    pub new_layout: i32,
    pub src_access_mask: u32,
    pub dst_access_mask: u32,
    pub src_stage: u32,
    pub dst_stage: u32,
}

/// One linear-filtered blit from a mip level into the next, with the barriers around it.
#[derive(Clone, Copy, PartialEq, Eq, Structural, Debug)]
pub struct MipStep {
    /// Moves the source level from transfer-destination to transfer-source layout.
    pub before: ImageBarrier,
    pub src_level: u32,
    pub src_width: i32,
    pub src_height: i32,
    pub dst_level: u32,
    pub dst_width: i32,
    pub dst_height: i32,
    /// Hands the source level, now final, to the fragment shader.
    pub after: ImageBarrier,
}

/// The commands that fill every mip level of a texture from level 0.
#[derive(Clone, Debug)]
pub struct MipmapPlan {
    pub steps: Vec<MipStep>,
    /// Hands the last level to the fragment shader.
    pub last: ImageBarrier,
}

/// How an image's texels are laid out in memory.
#[derive(Clone, Copy, PartialEq, Eq, Structural, Debug)]
pub enum ImageTiling {
    Optimal,
    Linear,
}

/// The features a device supports for a format, per tiling.
#[derive(Clone, Copy, PartialEq, Eq, Structural, Debug)]
pub struct FormatProperties {
    pub format: i32,
    pub linear_tiling_features: u32,
    pub optimal_tiling_features: u32,
}

/// What can go wrong before a texture is uploaded.
#[derive(Clone, Copy, PartialEq, Eq, Structural, Debug)]
pub enum TextureError {
    /// The image has no pixels.
    Empty,
    /// The image's byte size does not fit a device size.
    TooLarge,
}

/// The barrier masks of a supported layout transition, over all `mip_levels` levels.
pub open spec fn transition_spec(old_layout: i32, new_layout: i32, mip_levels: u32) -> Option<ImageBarrier> {
    if old_layout == LAYOUT_UNDEFINED && new_layout == LAYOUT_TRANSFER_DST_OPTIMAL {
        Some(ImageBarrier {
            base_mip_level: 0,
            level_count: mip_levels,
            old_layout,
            new_layout,
            src_access_mask: 0,
            dst_access_mask: ACCESS_TRANSFER_WRITE,
            src_stage: STAGE_TOP_OF_PIPE,
            dst_stage: STAGE_TRANSFER,
        })
    } else if old_layout == LAYOUT_TRANSFER_DST_OPTIMAL && new_layout == LAYOUT_SHADER_READ_ONLY_OPTIMAL {
        Some(ImageBarrier {
            base_mip_level: 0,
            level_count: mip_levels,
            old_layout,
            new_layout,
            src_access_mask: ACCESS_TRANSFER_WRITE,
            dst_access_mask: ACCESS_SHADER_READ,
            src_stage: STAGE_TRANSFER,
            dst_stage: STAGE_FRAGMENT_SHADER,
        })
    } else if old_layout == LAYOUT_UNDEFINED && new_layout == LAYOUT_COLOR_ATTACHMENT_OPTIMAL {
        Some(ImageBarrier {
            base_mip_level: 0,
            level_count: mip_levels,
            old_layout,
            new_layout,
            src_access_mask: 0,
            dst_access_mask: ACCESS_COLOR_ATTACHMENT_READ | ACCESS_COLOR_ATTACHMENT_WRITE,
            src_stage: STAGE_TOP_OF_PIPE,
            dst_stage: STAGE_COLOR_ATTACHMENT_OUTPUT,
        })
    } else {
        None
    }
}

/// The barrier that moves every mip level of a colour image from `old_layout`
/// to `new_layout`, or `None` when the pair is not one the renderer uses.
pub fn transition_image_layout(old_layout: i32, new_layout: i32, mip_levels: u32) -> (r: Option<ImageBarrier>)
    ensures
        r == transition_spec(old_layout, new_layout, mip_levels),
{
    if old_layout == LAYOUT_UNDEFINED && new_layout == LAYOUT_TRANSFER_DST_OPTIMAL {
        Some(ImageBarrier {
            base_mip_level: 0,
            level_count: mip_levels,
            old_layout,
            new_layout,
            src_access_mask: 0,
            dst_access_mask: ACCESS_TRANSFER_WRITE,
            src_stage: STAGE_TOP_OF_PIPE,
            dst_stage: STAGE_TRANSFER,
        })
    } else if old_layout == LAYOUT_TRANSFER_DST_OPTIMAL && new_layout == LAYOUT_SHADER_READ_ONLY_OPTIMAL {
        Some(ImageBarrier {
            base_mip_level: 0,
            level_count: mip_levels,
            old_layout,
            new_layout,
            src_access_mask: ACCESS_TRANSFER_WRITE,
            dst_access_mask: ACCESS_SHADER_READ,
            src_stage: STAGE_TRANSFER,
            dst_stage: STAGE_FRAGMENT_SHADER,
        })
    } else if old_layout == LAYOUT_UNDEFINED && new_layout == LAYOUT_COLOR_ATTACHMENT_OPTIMAL {
        Some(ImageBarrier {
            base_mip_level: 0,
            level_count: mip_levels,
            old_layout,
            new_layout,
            src_access_mask: 0,
            dst_access_mask: ACCESS_COLOR_ATTACHMENT_READ | ACCESS_COLOR_ATTACHMENT_WRITE,
            src_stage: STAGE_TOP_OF_PIPE,
            dst_stage: STAGE_COLOR_ATTACHMENT_OUTPUT,
        })
    } else {
        None
    }
}

/// The floor of the base-2 logarithm, with 0 for 0 and 1.
pub open spec fn log2_floor(n: nat) -> nat
    decreases n,
{
    if n <= 1 {
        0
    } else {
        1 + log2_floor(n / 2)
    }
}

pub open spec fn mip_levels_spec(width: u32, height: u32) -> nat {
    log2_floor(if width >= height { width as nat } else { height as nat }) + 1
}

/// How many mip levels a texture of this size has: each level halves the
/// larger side, down to one pixel.
pub fn mip_levels(width: u32, height: u32) -> (r: u32)
    ensures
        r == mip_levels_spec(width, height),
{
    let largest = if width >= height { width } else { height };
    let mut n: u32 = largest;
    let mut levels: u32 = 1;
    proof {
        lemma_log2_floor_bound(n as nat);
    }
    while n > 1
        invariant
            levels + log2_floor(n as nat) == mip_levels_spec(width, height),
            levels <= 32 - log2_floor(n as nat),
            log2_floor(n as nat) <= 31,
        decreases n,
    {
        levels += 1;
        n = n / 2;
    }
    levels
}

proof fn lemma_log2_floor_bound(n: nat)
    requires
        n <= u32::MAX,
    ensures
        log2_floor(n) <= 31,
{
    reveal_with_fuel(pow2, 33);
    assert(pow2(32) == 0x1_0000_0000nat);
    lemma_log2_below(n, 32);
}

/// A number below `2^k` has a logarithm below `k`.
proof fn lemma_log2_below(n: nat, k: nat)
    requires
        n < pow2(k),
        k >= 1,
    ensures
        log2_floor(n) < k,
    decreases n,
{
    if n > 1 {
        reveal_with_fuel(pow2, 2);
        assert(k >= 2);
        assert(pow2(k) == 2 * pow2((k - 1) as nat));
        lemma_log2_below(n / 2, (k - 1) as nat);
    }
}

pub open spec fn pow2(k: nat) -> nat
    decreases k,
{
    if k == 0 {
        1
    } else {
        2 * pow2((k - 1) as nat)
    }
}

/// The side of mip level `level` of an image whose level 0 has side `d`:
/// each level halves the previous one, but never below one pixel.
pub open spec fn mip_dim(d: int, level: nat) -> int
    decreases level,
{
    if level == 0 {
        d
    } else {
        let p = mip_dim(d, (level - 1) as nat);
        if p / 2 > 1 {
            p / 2
        } else {
            1
        }
    }
}

pub open spec fn shader_read_barrier(level: u32, old_layout: i32, src_access_mask: u32) -> ImageBarrier {
    ImageBarrier {
        base_mip_level: level,
        level_count: 1,
        old_layout,
        new_layout: LAYOUT_SHADER_READ_ONLY_OPTIMAL,
        src_access_mask,
        dst_access_mask: ACCESS_SHADER_READ,
        src_stage: STAGE_TRANSFER,
        dst_stage: STAGE_FRAGMENT_SHADER,
    }
}

/// The step that fills level `k + 1` from level `k`.
pub open spec fn mip_step_spec(width: u32, height: u32, k: int) -> MipStep {
    MipStep {
        before: ImageBarrier {
            base_mip_level: k as u32,
            level_count: 1,
            old_layout: LAYOUT_TRANSFER_DST_OPTIMAL,
            new_layout: LAYOUT_TRANSFER_SRC_OPTIMAL,
            src_access_mask: ACCESS_TRANSFER_WRITE,
            dst_access_mask: ACCESS_TRANSFER_READ,
            src_stage: STAGE_TRANSFER,
            dst_stage: STAGE_TRANSFER,
        },
        src_level: k as u32,
        src_width: mip_dim(width as int, k as nat) as i32,
        src_height: mip_dim(height as int, k as nat) as i32,
        dst_level: (k + 1) as u32,
        dst_width: mip_dim(width as int, (k + 1) as nat) as i32,
        dst_height: mip_dim(height as int, (k + 1) as nat) as i32,
        after: shader_read_barrier(k as u32, LAYOUT_TRANSFER_SRC_OPTIMAL, ACCESS_TRANSFER_READ),
    }
}

proof fn lemma_mip_dim_range(d: int, level: nat)
    requires
        1 <= d,
    ensures
        1 <= mip_dim(d, level) <= d,
    decreases level,
{
    if level > 0 {
        lemma_mip_dim_range(d, (level - 1) as nat);
    }
}

/// Plans the mip chain of a texture whose level 0 holds the image and whose
/// other levels are still to be filled, all in transfer-destination layout.
/// Each level is blitted from the one above it, top down.
pub fn generate_mipmaps(width: u32, height: u32, mip_levels: u32) -> (r: MipmapPlan)
    requires
        1 <= mip_levels,
        1 <= width <= i32::MAX,
        1 <= height <= i32::MAX,
    ensures
        r.steps@.len() == mip_levels - 1,
        forall|k: int| 0 <= k < mip_levels - 1 ==> #[trigger] r.steps@[k] == mip_step_spec(width, height, k),
        r.last == shader_read_barrier((mip_levels - 1) as u32, LAYOUT_TRANSFER_DST_OPTIMAL, ACCESS_TRANSFER_WRITE),
{
    let mut steps: Vec<MipStep> = Vec::new();
    let mut mip_width: i32 = width as i32;
    let mut mip_height: i32 = height as i32;
    let mut i: u32 = 1;
    while i < mip_levels
        invariant
            1 <= i <= mip_levels,
            1 <= width <= i32::MAX,
            1 <= height <= i32::MAX,
            steps@.len() == i - 1,
            forall|k: int| 0 <= k < i - 1 ==> #[trigger] steps@[k] == mip_step_spec(width, height, k),
            mip_width as int == mip_dim(width as int, (i - 1) as nat),
            mip_height as int == mip_dim(height as int, (i - 1) as nat),
        decreases mip_levels - i,
    {
        proof {
            lemma_mip_dim_range(width as int, (i - 1) as nat);
            lemma_mip_dim_range(height as int, (i - 1) as nat);
            lemma_mip_dim_range(width as int, i as nat);
            lemma_mip_dim_range(height as int, i as nat);
        }
        let next_width: i32 = if mip_width / 2 > 1 { mip_width / 2 } else { 1 };
        let next_height: i32 = if mip_height / 2 > 1 { mip_height / 2 } else { 1 };
        let step = MipStep {
            before: ImageBarrier {
                base_mip_level: i - 1,
                level_count: 1,
                old_layout: LAYOUT_TRANSFER_DST_OPTIMAL,
                new_layout: LAYOUT_TRANSFER_SRC_OPTIMAL,
                src_access_mask: ACCESS_TRANSFER_WRITE,
                dst_access_mask: ACCESS_TRANSFER_READ,
                src_stage: STAGE_TRANSFER,
                dst_stage: STAGE_TRANSFER,
            },
            src_level: i - 1,
            src_width: mip_width,
            src_height: mip_height,
            dst_level: i,
            dst_width: next_width,
            dst_height: next_height,
            after: ImageBarrier {
                base_mip_level: i - 1,
                level_count: 1,
                old_layout: LAYOUT_TRANSFER_SRC_OPTIMAL,
                new_layout: LAYOUT_SHADER_READ_ONLY_OPTIMAL,
                src_access_mask: ACCESS_TRANSFER_READ,
                dst_access_mask: ACCESS_SHADER_READ,
                src_stage: STAGE_TRANSFER,
                dst_stage: STAGE_FRAGMENT_SHADER,
            },
        };
        assert(step == mip_step_spec(width, height, (i - 1) as int));
        steps.push(step);
        mip_width = next_width;
        mip_height = next_height;
        i += 1;
    }
    let last = ImageBarrier {
        base_mip_level: mip_levels - 1,
        level_count: 1,
        old_layout: LAYOUT_TRANSFER_DST_OPTIMAL,
        new_layout: LAYOUT_SHADER_READ_ONLY_OPTIMAL,
        src_access_mask: ACCESS_TRANSFER_WRITE,
        dst_access_mask: ACCESS_SHADER_READ,
        src_stage: STAGE_TRANSFER,
        dst_stage: STAGE_FRAGMENT_SHADER,
    };
    MipmapPlan { steps, last }
}

/// The byte size of an RGBA8 image, or why it cannot be uploaded.
pub fn texture_byte_size(width: u32, height: u32) -> (r: Result<u64, TextureError>)
    ensures
        width == 0 || height == 0 ==> r == Err::<u64, TextureError>(TextureError::Empty),
        width > 0 && height > 0 && width * height * 4 > u64::MAX ==> r == Err::<u64, TextureError>(TextureError::TooLarge),
        width > 0 && height > 0 && width * height * 4 <= u64::MAX ==> r == Ok::<u64, TextureError>((width * height * 4) as u64),
{
    if width == 0 || height == 0 {
        return Err(TextureError::Empty);
    }
    let w = width as u64;
    let h = height as u64;
    assert(w * h <= 0xffff_ffffu64 * 0xffff_ffffu64) by (nonlinear_arith)
        requires
            w <= 0xffff_ffffu64,
            h <= 0xffff_ffffu64,
    ;
    let pixels = w * h;
    if pixels > u64::MAX / 4 {
        Err(TextureError::TooLarge)
    } else {
        Ok(pixels * 4)
    }
}

/// The largest sample count among 64, 32, 16, 8, 4 and 2 whose bit is set, else 1.
pub open spec fn highest_sample_count(counts: u32) -> u32 {
    if counts & 0x40 == 0x40 {
        0x40
    } else if counts & 0x20 == 0x20 {
        0x20
    } else if counts & 0x10 == 0x10 {
        0x10
    } else if counts & 0x8 == 0x8 {
        0x8
    } else if counts & 0x4 == 0x4 {
        0x4
    } else if counts & 0x2 == 0x2 {
        0x2
    } else {
        SAMPLE_COUNT_1
    }
}

/// The multisample count used for colour and depth attachments: the highest
/// count set in the smaller of the two sample-count masks the device reports.
pub fn get_max_usable_sample_count(framebuffer_color_sample_counts: u32, framebuffer_depth_sample_counts: u32) -> (r: u32)
    ensures
        r == highest_sample_count(
            if framebuffer_color_sample_counts <= framebuffer_depth_sample_counts {
                framebuffer_color_sample_counts
            } else {
                framebuffer_depth_sample_counts
            },
        ),
{
    let count = if framebuffer_color_sample_counts <= framebuffer_depth_sample_counts {
        framebuffer_color_sample_counts
    } else {
        framebuffer_depth_sample_counts
    };
    let mut s: u32 = 0x40;
    if count & s == s {
        return s;
    }
    s = 0x20;
    if count & s == s {
        return s;
    }
    s = 0x10;
    if count & s == s {
        return s;
    }
    s = 0x8;
    if count & s == s {
        return s;
    }
    s = 0x4;
    if count & s == s {
        return s;
    }
    s = 0x2;
    if count & s == s {
        return s;
    }
    SAMPLE_COUNT_1
}

pub open spec fn format_supports(p: FormatProperties, tiling: ImageTiling, features: u32) -> bool {
    match tiling {
        ImageTiling::Linear => p.linear_tiling_features & features == features,
        ImageTiling::Optimal => p.optimal_tiling_features & features == features,
    }
}

/// Picks the first candidate format that supports `features` with `tiling`.
pub fn find_supported_format(candidate_formats: &Vec<FormatProperties>, tiling: ImageTiling, features: u32) -> (r: Option<i32>)
    ensures
        match r {
            Some(f) => exists|i: int|
                0 <= i < candidate_formats@.len() && candidate_formats@[i].format == f
                    && format_supports(candidate_formats@[i], tiling, features)
                    && forall|j: int| 0 <= j < i ==> !format_supports(#[trigger] candidate_formats@[j], tiling, features),
            None => forall|j: int| 0 <= j < candidate_formats@.len() ==> !format_supports(#[trigger] candidate_formats@[j], tiling, features),
        },
{
    let mut i: usize = 0;
    while i < candidate_formats.len()
        invariant
            i <= candidate_formats@.len(),
            forall|j: int| 0 <= j < i ==> !format_supports(#[trigger] candidate_formats@[j], tiling, features),
        decreases candidate_formats@.len() - i,
    {
        let p = candidate_formats[i];
        let supported = match tiling {
            ImageTiling::Linear => p.linear_tiling_features & features == features,
            ImageTiling::Optimal => p.optimal_tiling_features & features == features,
        };
        if supported {
            return Some(p.format);
        }
        i += 1;
    }
    None
}

/// The depth formats tried, best first.
pub fn depth_format_candidates() -> (r: Vec<i32>)
    ensures
        r@ == seq![FORMAT_D32_SFLOAT, FORMAT_D32_SFLOAT_S8_UINT, FORMAT_D24_UNORM_S8_UINT],
{
    vec![FORMAT_D32_SFLOAT, FORMAT_D32_SFLOAT_S8_UINT, FORMAT_D24_UNORM_S8_UINT]
}

/// Picks the depth format: the first candidate usable as an optimally tiled
/// depth-stencil attachment. `candidates` holds the properties of the formats
/// of `depth_format_candidates`, in that order.
pub fn find_depth_format(candidates: &Vec<FormatProperties>) -> (r: Option<i32>)
    ensures
        match r {
            Some(f) => exists|i: int|
                0 <= i < candidates@.len() && candidates@[i].format == f
                    && format_supports(candidates@[i], ImageTiling::Optimal, FEATURE_DEPTH_STENCIL_ATTACHMENT)
                    && forall|j: int| 0 <= j < i ==> !format_supports(#[trigger] candidates@[j], ImageTiling::Optimal, FEATURE_DEPTH_STENCIL_ATTACHMENT),
            None => forall|j: int| 0 <= j < candidates@.len() ==> !format_supports(#[trigger] candidates@[j], ImageTiling::Optimal, FEATURE_DEPTH_STENCIL_ATTACHMENT),
        },
{
    find_supported_format(candidates, ImageTiling::Optimal, FEATURE_DEPTH_STENCIL_ATTACHMENT)
}

/// The depth format also has a stencil aspect.
pub fn has_stencil_component(format: i32) -> (r: bool)
    ensures
        r == (format == FORMAT_D32_SFLOAT_S8_UINT || format == FORMAT_D24_UNORM_S8_UINT),
{
    format == FORMAT_D32_SFLOAT_S8_UINT || format == FORMAT_D24_UNORM_S8_UINT
}

/// The format can be blitted with linear filtering, which mip generation needs.
pub fn check_mipmap_support(optimal_tiling_features: u32) -> (r: bool)
    ensures
        r == (optimal_tiling_features & FEATURE_SAMPLED_IMAGE_FILTER_LINEAR == FEATURE_SAMPLED_IMAGE_FILTER_LINEAR),
{
    optimal_tiling_features & FEATURE_SAMPLED_IMAGE_FILTER_LINEAR == FEATURE_SAMPLED_IMAGE_FILTER_LINEAR
}

} // verus!
