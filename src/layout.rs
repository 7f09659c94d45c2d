//! Access and stage masks of the image layout transitions the renderer uses.
use vstd::prelude::*;

verus! {

/// `VK_IMAGE_LAYOUT_UNDEFINED`.
pub const LAYOUT_UNDEFINED: i32 = 0;

/// `VK_IMAGE_LAYOUT_DEPTH_STENCIL_ATTACHMENT_OPTIMAL`.
pub const LAYOUT_DEPTH_STENCIL_ATTACHMENT_OPTIMAL: i32 = 3;

/// `VK_IMAGE_LAYOUT_SHADER_READ_ONLY_OPTIMAL`.
pub const LAYOUT_SHADER_READ_ONLY_OPTIMAL: i32 = 5;

/// `VK_IMAGE_LAYOUT_TRANSFER_DST_OPTIMAL`.
pub const LAYOUT_TRANSFER_DST_OPTIMAL: i32 = 7;

/// `VK_ACCESS_SHADER_READ_BIT`.
pub const ACCESS_SHADER_READ: u32 = 0x20;

/// `VK_ACCESS_DEPTH_STENCIL_ATTACHMENT_READ_BIT`.
pub const ACCESS_DEPTH_STENCIL_ATTACHMENT_READ: u32 = 0x200;

/// `VK_ACCESS_DEPTH_STENCIL_ATTACHMENT_WRITE_BIT`.
pub const ACCESS_DEPTH_STENCIL_ATTACHMENT_WRITE: u32 = 0x400;

/// `VK_ACCESS_TRANSFER_WRITE_BIT`.
pub const ACCESS_TRANSFER_WRITE: u32 = 0x1000;

/// `VK_PIPELINE_STAGE_TOP_OF_PIPE_BIT`.
pub const STAGE_TOP_OF_PIPE: u32 = 0x1;

/// `VK_PIPELINE_STAGE_FRAGMENT_SHADER_BIT`.
pub const STAGE_FRAGMENT_SHADER: u32 = 0x80;

/// `VK_PIPELINE_STAGE_EARLY_FRAGMENT_TESTS_BIT`.
pub const STAGE_EARLY_FRAGMENT_TESTS: u32 = 0x100;

/// `VK_PIPELINE_STAGE_TRANSFER_BIT`.
pub const STAGE_TRANSFER: u32 = 0x1000;

/// `VK_IMAGE_ASPECT_COLOR_BIT`.
pub const ASPECT_COLOR: u32 = 0x1;

/// `VK_IMAGE_ASPECT_DEPTH_BIT`.
pub const ASPECT_DEPTH: u32 = 0x2;

/// `VK_IMAGE_ASPECT_STENCIL_BIT`.
pub const ASPECT_STENCIL: u32 = 0x4;

/// `VK_FORMAT_D24_UNORM_S8_UINT`.
pub const FORMAT_D24_UNORM_S8_UINT: i32 = 129;

/// `VK_FORMAT_D32_SFLOAT_S8_UINT`.
pub const FORMAT_D32_SFLOAT_S8_UINT: i32 = 130;

/// The masks of the barrier that performs one layout transition.
#[derive(Clone, Copy, Debug, PartialEq, Eq, Structural)]
pub struct TransitionMasks {
    pub src_access: u32,
    pub dst_access: u32,
    pub src_stage: u32,
    pub dst_stage: u32,
}

/// A transition the renderer has no barrier for.
#[derive(Clone, Copy, Debug, PartialEq, Eq, Structural)]
pub struct UnsupportedTransition {
    pub old_layout: i32,
    pub new_layout: i32,
}

/// The barrier masks of the three supported transitions: undefined to
/// depth-stencil attachment, undefined to transfer destination, and transfer
/// destination to shader read-only.
pub open spec fn transition_spec(old_layout: i32, new_layout: i32) -> Option<TransitionMasks> {
    if old_layout == LAYOUT_UNDEFINED && new_layout == LAYOUT_DEPTH_STENCIL_ATTACHMENT_OPTIMAL {
        Some(
            TransitionMasks {
                src_access: 0,
                dst_access: ACCESS_DEPTH_STENCIL_ATTACHMENT_READ
                    | ACCESS_DEPTH_STENCIL_ATTACHMENT_WRITE,
                src_stage: STAGE_TOP_OF_PIPE,
                dst_stage: STAGE_EARLY_FRAGMENT_TESTS,
            },
        )
    } else if old_layout == LAYOUT_UNDEFINED && new_layout == LAYOUT_TRANSFER_DST_OPTIMAL {
        Some(
            TransitionMasks {
                src_access: 0,
                dst_access: ACCESS_TRANSFER_WRITE,
                src_stage: STAGE_TOP_OF_PIPE,
                dst_stage: STAGE_TRANSFER,
            },
        )
    } else if old_layout == LAYOUT_TRANSFER_DST_OPTIMAL && new_layout
        == LAYOUT_SHADER_READ_ONLY_OPTIMAL {
        Some(
            TransitionMasks {
                src_access: ACCESS_TRANSFER_WRITE,
                dst_access: ACCESS_SHADER_READ,
                src_stage: STAGE_TRANSFER,
                dst_stage: STAGE_FRAGMENT_SHADER,
            },
        )
    } else {
        None
    }
}

/// The barrier masks for moving an image from `old_layout` to `new_layout`;
/// an error for any transition other than the three supported ones.
pub fn transition_masks(old_layout: i32, new_layout: i32) -> (r: Result<
    TransitionMasks,
    UnsupportedTransition,
>)
    ensures
        transition_spec(old_layout, new_layout) matches Some(m) ==> r == Ok::<
            TransitionMasks,
            UnsupportedTransition,
        >(m),
        transition_spec(old_layout, new_layout) is None ==> r == Err::<
            TransitionMasks,
            UnsupportedTransition,
        >(UnsupportedTransition { old_layout, new_layout }),
{
    if old_layout == LAYOUT_UNDEFINED && new_layout == LAYOUT_DEPTH_STENCIL_ATTACHMENT_OPTIMAL {
        Ok(
            TransitionMasks {
                src_access: 0,
                dst_access: ACCESS_DEPTH_STENCIL_ATTACHMENT_READ
                    | ACCESS_DEPTH_STENCIL_ATTACHMENT_WRITE,
                src_stage: STAGE_TOP_OF_PIPE,
                dst_stage: STAGE_EARLY_FRAGMENT_TESTS,
            },
        )
    } else if old_layout == LAYOUT_UNDEFINED && new_layout == LAYOUT_TRANSFER_DST_OPTIMAL {
        Ok(
            TransitionMasks {
                src_access: 0,
                dst_access: ACCESS_TRANSFER_WRITE,
                src_stage: STAGE_TOP_OF_PIPE,
                dst_stage: STAGE_TRANSFER,
            },
        )
    } else if old_layout == LAYOUT_TRANSFER_DST_OPTIMAL && new_layout
        == LAYOUT_SHADER_READ_ONLY_OPTIMAL {
        Ok(
            TransitionMasks {
                src_access: ACCESS_TRANSFER_WRITE,
                dst_access: ACCESS_SHADER_READ,
                src_stage: STAGE_TRANSFER,
                dst_stage: STAGE_FRAGMENT_SHADER,
            },
        )
    } else {
        Err(UnsupportedTransition { old_layout, new_layout })
    }
}

/// The aspects a transition's barrier covers: depth, with stencil for the
/// two combined depth-stencil formats, when the image becomes a
/// depth-stencil attachment; colour otherwise.
pub open spec fn aspect_spec(new_layout: i32, format: i32) -> u32 {
    if new_layout == LAYOUT_DEPTH_STENCIL_ATTACHMENT_OPTIMAL {
        if format == FORMAT_D32_SFLOAT_S8_UINT || format == FORMAT_D24_UNORM_S8_UINT {
            ASPECT_DEPTH | ASPECT_STENCIL
        } else {
            ASPECT_DEPTH
        }
    } else {
        ASPECT_COLOR
    }
}

pub fn aspect_mask(new_layout: i32, format: i32) -> (r: u32)
    ensures
        r == aspect_spec(new_layout, format),
{
    if new_layout == LAYOUT_DEPTH_STENCIL_ATTACHMENT_OPTIMAL {
        if format == FORMAT_D32_SFLOAT_S8_UINT || format == FORMAT_D24_UNORM_S8_UINT {
            ASPECT_DEPTH | ASPECT_STENCIL
        } else {
            ASPECT_DEPTH
        }
    } else {
        ASPECT_COLOR
    }
}

/// `VK_FORMAT_D32_SFLOAT`.
pub const FORMAT_D32_SFLOAT: i32 = 126;

/// `VK_FORMAT_FEATURE_DEPTH_STENCIL_ATTACHMENT_BIT`.
pub const FEATURE_DEPTH_STENCIL_ATTACHMENT: u32 = 0x200;

/// What a device supports for one format under optimal tiling.
#[derive(Clone, Copy, Debug, PartialEq, Eq, Structural)]
pub struct FormatSupport {
    pub format: i32,
    pub optimal_tiling_features: u32,
}

/// The depth formats to try, most preferred first.
pub fn depth_format_candidates() -> (r: [i32; 3])
    ensures
        r@ == seq![FORMAT_D32_SFLOAT, FORMAT_D32_SFLOAT_S8_UINT, FORMAT_D24_UNORM_S8_UINT],
{
    [FORMAT_D32_SFLOAT, FORMAT_D32_SFLOAT_S8_UINT, FORMAT_D24_UNORM_S8_UINT]
}

pub open spec fn supports(c: FormatSupport, features: u32) -> bool {
    c.optimal_tiling_features & features == features
}

/// The first candidate whose optimal tiling has every feature of
/// `features`; `None` when no candidate has them.
pub fn pick_supported_format(candidates: &Vec<FormatSupport>, features: u32) -> (r: Option<i32>)
    ensures
        r is None <==> forall|i: int|
            0 <= i < candidates@.len() ==> !supports(#[trigger] candidates@[i], features),
        r matches Some(f) ==> exists|i: int|
            0 <= i < candidates@.len() && (#[trigger] candidates@[i]).format == f && supports(
                candidates@[i],
                features,
            ) && forall|j: int| 0 <= j < i ==> !supports(#[trigger] candidates@[j], features),
{
    let mut i: usize = 0;
    while i < candidates.len()
        invariant
            i <= candidates@.len(),
            forall|j: int| 0 <= j < i ==> !supports(#[trigger] candidates@[j], features),
        decreases candidates@.len() - i,
    {
        let c = candidates[i];
        if c.optimal_tiling_features & features == features {
            assert(candidates@[i as int].format == c.format && supports(candidates@[i as int], features));
            return Some(c.format);
        }
        i += 1;
    }
    None
}

} // verus!
