//! The image formats the engine renders to: for each purpose, the candidates in order of
//! preference and the features the format must support.
use vstd::prelude::*;
use crate::image::ImageError;
use crate::vulkan::{
    FORMAT_D24_UNORM_S8_UINT, FORMAT_D32_SFLOAT, FORMAT_D32_SFLOAT_S8_UINT,
    FORMAT_FEATURE_COLOR_ATTACHMENT, FORMAT_FEATURE_DEPTH_STENCIL_ATTACHMENT,
    FORMAT_R16G16B16A16_SFLOAT, FORMAT_R16G16_SFLOAT, IMAGE_TILING_LINEAR, IMAGE_TILING_OPTIMAL,
};

verus! {

/// What an image is rendered for.
#[derive(Clone, Copy, Debug, PartialEq, Eq, Structural)]
pub enum FormatPurpose {
    /// The image the scene is rendered into before postprocessing.
    RenderImage,
    /// The depth and stencil buffer.
    DepthStencil,
    /// The per-pixel motion vectors.
    MotionVector,
}

/// The features a physical device supports for one format, with linear and with optimal
/// tiling.
#[derive(Clone, Copy, Debug, PartialEq, Eq, Structural)]
pub struct FormatProperties {
    pub linear_tiling_features: u32,
    pub optimal_tiling_features: u32,
}

/// The candidates for a purpose, most preferred first.
pub open spec fn candidates_for(purpose: FormatPurpose) -> Seq<i32> {
    match purpose {
        FormatPurpose::RenderImage => seq![FORMAT_R16G16B16A16_SFLOAT],
        FormatPurpose::DepthStencil => seq![
            FORMAT_D32_SFLOAT_S8_UINT,
            FORMAT_D24_UNORM_S8_UINT,
            FORMAT_D32_SFLOAT,
        ],
        FormatPurpose::MotionVector => seq![FORMAT_R16G16_SFLOAT, FORMAT_R16G16B16A16_SFLOAT],
    }
}

/// The features a format for a purpose must support with optimal tiling.
pub open spec fn features_for(purpose: FormatPurpose) -> u32 {
    match purpose {
        FormatPurpose::DepthStencil => FORMAT_FEATURE_DEPTH_STENCIL_ATTACHMENT,
        _ => FORMAT_FEATURE_COLOR_ATTACHMENT,
    }
}

/// Whether a format with these properties supports all of `features` with `tiling`; no
/// tiling but linear and optimal supports anything.
pub open spec fn supports(properties: FormatProperties, tiling: i32, features: u32) -> bool {
    if tiling == IMAGE_TILING_LINEAR {
        properties.linear_tiling_features & features == features
    } else if tiling == IMAGE_TILING_OPTIMAL {
        properties.optimal_tiling_features & features == features
    } else {
        false
    }
}

/// The candidates for a purpose, most preferred first.
pub fn format_candidates(purpose: FormatPurpose) -> (r: Vec<i32>)
    ensures
        r@ == candidates_for(purpose),
{
    let mut r: Vec<i32> = Vec::new();
    match purpose {
        FormatPurpose::RenderImage => {
            r.push(FORMAT_R16G16B16A16_SFLOAT);
        },
        FormatPurpose::DepthStencil => {
            r.push(FORMAT_D32_SFLOAT_S8_UINT);
            r.push(FORMAT_D24_UNORM_S8_UINT);
            r.push(FORMAT_D32_SFLOAT);
        },
        FormatPurpose::MotionVector => {
            r.push(FORMAT_R16G16_SFLOAT);
            r.push(FORMAT_R16G16B16A16_SFLOAT);
        },
    }
    assert(r@ =~= candidates_for(purpose));
    r
}

/// The features a format for a purpose must support with optimal tiling.
pub fn required_features(purpose: FormatPurpose) -> (r: u32)
    ensures
        r == features_for(purpose),
{
    match purpose {
        FormatPurpose::DepthStencil => FORMAT_FEATURE_DEPTH_STENCIL_ATTACHMENT,
        _ => FORMAT_FEATURE_COLOR_ATTACHMENT,
    }
}

/// The first candidate, in order, whose properties (`properties[i]` belongs to
/// `candidates[i]`) support all of `features` with `tiling`; refused when none does.
pub fn get_supported_format(
    candidates: &Vec<i32>,
    properties: &Vec<FormatProperties>,
    tiling: i32,
    features: u32,
) -> (r: Result<i32, ImageError>)
    requires
        properties@.len() == candidates@.len(),
    ensures
        r matches Ok(format) ==> exists|i: int|
            0 <= i < candidates@.len() && candidates@[i] == format && supports(
                #[trigger] properties@[i],
                tiling,
                features,
            ) && forall|j: int| 0 <= j < i ==> !supports(#[trigger] properties@[j], tiling, features),
        r is Err <==> forall|i: int|
            0 <= i < candidates@.len() ==> !supports(#[trigger] properties@[i], tiling, features),
        r matches Err(e) ==> e == ImageError::NoSupportedFormat,
{
    let mut i: usize = 0;
    while i < candidates.len()
        invariant
            i <= candidates@.len(),
            properties@.len() == candidates@.len(),
            forall|j: int| 0 <= j < i ==> !supports(#[trigger] properties@[j], tiling, features),
        decreases candidates@.len() - i,
    {
        let p = properties[i];
        let supported = if tiling == IMAGE_TILING_LINEAR {
            p.linear_tiling_features & features == features
        } else if tiling == IMAGE_TILING_OPTIMAL {
            p.optimal_tiling_features & features == features
        } else {
            false
        };
        if supported {
            assert(supports(properties@[i as int], tiling, features));
            return Ok(candidates[i]);
        }
        i = i + 1;
    }
    Err(ImageError::NoSupportedFormat)
}

} // verus!
