//! Sampler filtering and wrapping modes, and their conversions to and from
//! the numeric constants the graphics API uses for them.

use vstd::prelude::*;

verus! {

pub const GL_NEAREST: u32 = 9728;

pub const GL_LINEAR: u32 = 9729;

pub const GL_NEAREST_MIPMAP_NEAREST: u32 = 9984;

pub const GL_LINEAR_MIPMAP_NEAREST: u32 = 9985;

pub const GL_NEAREST_MIPMAP_LINEAR: u32 = 9986;

pub const GL_LINEAR_MIPMAP_LINEAR: u32 = 9987;

pub const GL_CLAMP_TO_EDGE: u32 = 33071;

pub const GL_MIRRORED_REPEAT: u32 = 33648;

pub const GL_REPEAT: u32 = 10497;

/// Magnification filter of a sampler.
#[derive(Clone, Copy, Debug, PartialEq, Eq, Structural)]
pub enum MagFilter {
    Nearest,
    Linear,
}

/// Minification filter of a sampler.
#[derive(Clone, Copy, Debug, PartialEq, Eq, Structural)]
pub enum MinFilter {
    Nearest,
    Linear,
    NearestMipmapNearest,
    LinearMipmapNearest,
    NearestMipmapLinear,
    LinearMipmapLinear,
}

/// Texture-coordinate wrapping mode of a sampler.
#[derive(Clone, Copy, Debug, PartialEq, Eq, Structural)]
pub enum WrappingMode {
    ClampToEdge,
    MirroredRepeat,
    Repeat,
}

/// The graphics-API constant of a magnification filter.
pub open spec fn spec_mag_filter_gl(filter: MagFilter) -> u32 {
    match filter {
        MagFilter::Nearest => GL_NEAREST,
        MagFilter::Linear => GL_LINEAR,
    }
}

/// The graphics-API constant of a minification filter.
pub open spec fn spec_min_filter_gl(filter: MinFilter) -> u32 {
    match filter {
        MinFilter::Nearest => GL_NEAREST,
        MinFilter::Linear => GL_LINEAR,
        MinFilter::NearestMipmapNearest => GL_NEAREST_MIPMAP_NEAREST,
        MinFilter::LinearMipmapNearest => GL_LINEAR_MIPMAP_NEAREST,
        MinFilter::NearestMipmapLinear => GL_NEAREST_MIPMAP_LINEAR,
        MinFilter::LinearMipmapLinear => GL_LINEAR_MIPMAP_LINEAR,
    }
}

/// The graphics-API constant of a wrapping mode.
pub open spec fn spec_wrapping_mode_gl(mode: WrappingMode) -> u32 {
    match mode {
        WrappingMode::ClampToEdge => GL_CLAMP_TO_EDGE,
        WrappingMode::MirroredRepeat => GL_MIRRORED_REPEAT,
        WrappingMode::Repeat => GL_REPEAT,
    }
}

pub fn mag_filter_to_gl_value(filter: MagFilter) -> (r: u32)
    ensures
        r == spec_mag_filter_gl(filter),
{
    match filter {
        MagFilter::Nearest => GL_NEAREST,
        MagFilter::Linear => GL_LINEAR,
    }
}

/// The magnification filter a graphics-API constant stands for, or `None`
/// when the value names no magnification filter.
pub fn mag_filter_from_gl_value(value: u32) -> (r: Option<MagFilter>)
    ensures
        r is Some <==> (value == GL_NEAREST || value == GL_LINEAR),
        r is Some ==> spec_mag_filter_gl(r->0) == value,
{
    match value {
        GL_NEAREST => Some(MagFilter::Nearest),
        GL_LINEAR => Some(MagFilter::Linear),
        _ => None,
    }
}

pub fn min_filter_to_gl_value(filter: MinFilter) -> (r: u32)
    ensures
        r == spec_min_filter_gl(filter),
{
    match filter {
        MinFilter::Nearest => GL_NEAREST,
        MinFilter::Linear => GL_LINEAR,
        MinFilter::NearestMipmapNearest => GL_NEAREST_MIPMAP_NEAREST,
        MinFilter::LinearMipmapNearest => GL_LINEAR_MIPMAP_NEAREST,
        MinFilter::NearestMipmapLinear => GL_NEAREST_MIPMAP_LINEAR,
        MinFilter::LinearMipmapLinear => GL_LINEAR_MIPMAP_LINEAR,
    }
}

/// The minification filter a graphics-API constant stands for, or `None`
/// when the value names no minification filter.
pub fn min_filter_from_gl_value(value: u32) -> (r: Option<MinFilter>)
    ensures
        r is Some <==> (value == GL_NEAREST || value == GL_LINEAR || value
            == GL_NEAREST_MIPMAP_NEAREST || value == GL_LINEAR_MIPMAP_NEAREST || value
            == GL_NEAREST_MIPMAP_LINEAR || value == GL_LINEAR_MIPMAP_LINEAR),
        r is Some ==> spec_min_filter_gl(r->0) == value,
{
    match value {
        GL_NEAREST => Some(MinFilter::Nearest),
        GL_LINEAR => Some(MinFilter::Linear),
        GL_NEAREST_MIPMAP_NEAREST => Some(MinFilter::NearestMipmapNearest),
        GL_LINEAR_MIPMAP_NEAREST => Some(MinFilter::LinearMipmapNearest),
        GL_NEAREST_MIPMAP_LINEAR => Some(MinFilter::NearestMipmapLinear),
        GL_LINEAR_MIPMAP_LINEAR => Some(MinFilter::LinearMipmapLinear),
        _ => None,
    }
}

pub fn wrapping_mode_to_gl_value(mode: WrappingMode) -> (r: u32)
    ensures
        r == spec_wrapping_mode_gl(mode),
{
    match mode {
        WrappingMode::ClampToEdge => GL_CLAMP_TO_EDGE,
        WrappingMode::MirroredRepeat => GL_MIRRORED_REPEAT,
        WrappingMode::Repeat => GL_REPEAT,
    }
}

/// The wrapping mode a graphics-API constant stands for, or `None` when the
/// value names no wrapping mode.
pub fn wrapping_mode_from_gl_value(value: u32) -> (r: Option<WrappingMode>)
    ensures
        r is Some <==> (value == GL_CLAMP_TO_EDGE || value == GL_MIRRORED_REPEAT || value
            == GL_REPEAT),
        r is Some ==> spec_wrapping_mode_gl(r->0) == value,
{
    match value {
        GL_CLAMP_TO_EDGE => Some(WrappingMode::ClampToEdge),
        GL_MIRRORED_REPEAT => Some(WrappingMode::MirroredRepeat),
        GL_REPEAT => Some(WrappingMode::Repeat),
        _ => None,
    }
}

} // verus!
