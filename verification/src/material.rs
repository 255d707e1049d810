//! Material descriptions: physically-based metallic-roughness parameters and
//! the optional normal, occlusion and emissive texture references.
//!
//! Scalar and color factors are carried as IEEE-754 binary32 bit patterns
//! (`u32`), so that the library states and preserves them exactly; a host
//! shell reinterprets them as `f32`.

use vstd::prelude::*;

verus! {

/// Reference from a material to a texture, together with the index of the
/// texture-coordinate set the texture is sampled with.
#[derive(Clone, Copy, Debug, PartialEq, Eq, Structural)]
pub struct PbrMetallicRoughnessTextureInfo {
    pub index: usize,
    pub tex_coord: usize,
}

/// An emissive texture reference has the same shape as the other texture
/// references.
pub type EmissiveTextureInfo = PbrMetallicRoughnessTextureInfo;

/// Emissive color factor: red, green and blue as binary32 bit patterns.
pub type EmissiveFactorInfo = [u32; 3];

/// The metallic-roughness parameter bundle of a material: optional base-color
/// and metallic-roughness texture references plus scalar factors, all factors
/// as binary32 bit patterns.
#[derive(Clone, Copy)]
pub struct PbrMetallicRoughnessInfo {
    pub base_color_texture: Option<PbrMetallicRoughnessTextureInfo>,
    pub base_color_factor: [u32; 4],
    pub metallic_roughness_texture: Option<PbrMetallicRoughnessTextureInfo>,
    pub metallic_factor: u32,
    pub roughness_factor: u32,
}

/// Normal-map reference of a material with its scale factor (a binary32 bit
/// pattern).
#[derive(Clone, Copy, Debug, PartialEq, Eq, Structural)]
pub struct NormalTextureInfo {
    pub scale: u32,
    pub index: usize,
    pub tex_coord: usize,
}

/// Occlusion-map reference of a material with its strength factor (a binary32
/// bit pattern).
#[derive(Clone, Copy, Debug, PartialEq, Eq, Structural)]
pub struct OcclusionTextureInfo {
    pub strength: u32,
    pub index: usize,
    pub tex_coord: usize,
}

impl PbrMetallicRoughnessTextureInfo {
    pub fn new(index: usize, tex_coord: usize) -> (r: Self)
        ensures
            r.index == index,
            r.tex_coord == tex_coord,
    {
        Self { index, tex_coord }
    }

    pub fn index(&self) -> (r: usize)
        ensures
            r == self.index,
    {
        self.index
    }

    pub fn tex_coord(&self) -> (r: usize)
        ensures
            r == self.tex_coord,
    {
        self.tex_coord
    }
}

impl PbrMetallicRoughnessInfo {
    pub fn new(
        base_color_texture: Option<PbrMetallicRoughnessTextureInfo>,
        base_color_factor: [u32; 4],
        metallic_roughness_texture: Option<PbrMetallicRoughnessTextureInfo>,
        metallic_factor: u32,
        roughness_factor: u32,
    ) -> (r: Self)
        ensures
            r.base_color_texture == base_color_texture,
            r.base_color_factor == base_color_factor,
            r.metallic_roughness_texture == metallic_roughness_texture,
            r.metallic_factor == metallic_factor,
            r.roughness_factor == roughness_factor,
    {
        Self {
            base_color_texture,
            base_color_factor,
            metallic_roughness_texture,
            metallic_factor,
            roughness_factor,
        }
    }

    /// Builds the bundle from unwrapped values: both texture references
    /// present, given by index and coordinate set.
    pub fn new_from_raw(
        base_color_texture_index: usize,
        base_color_texture_tex_coord: usize,
        base_color_factor_arr: [u32; 4],
        metallic_roughness_texture_index: usize,
        metallic_roughness_texture_tex_coord: usize,
        metallic_factor: u32,
        roughness_factor: u32,
    ) -> (r: Self)
        ensures
            r.base_color_texture == Some(
                PbrMetallicRoughnessTextureInfo {
                    index: base_color_texture_index,
                    tex_coord: base_color_texture_tex_coord,
                },
            ),
            r.base_color_factor == base_color_factor_arr,
            r.metallic_roughness_texture == Some(
                PbrMetallicRoughnessTextureInfo {
                    index: metallic_roughness_texture_index,
                    tex_coord: metallic_roughness_texture_tex_coord,
                },
            ),
            r.metallic_factor == metallic_factor,
            r.roughness_factor == roughness_factor,
    {
        let base_color_texture = PbrMetallicRoughnessTextureInfo::new(
            base_color_texture_index,
            base_color_texture_tex_coord,
        );
        let metallic_roughness_texture = PbrMetallicRoughnessTextureInfo::new(
            metallic_roughness_texture_index,
            metallic_roughness_texture_tex_coord,
        );
        Self::new(
            Some(base_color_texture),
            base_color_factor_arr,
            Some(metallic_roughness_texture),
            metallic_factor,
            roughness_factor,
        )
    }

    pub fn base_color_texture(&self) -> (r: &Option<PbrMetallicRoughnessTextureInfo>)
        ensures
            r == &self.base_color_texture,
    {
        &self.base_color_texture
    }

    pub fn base_color_factor(&self) -> (r: [u32; 4])
        ensures
            r == self.base_color_factor,
    {
        self.base_color_factor
    }

    pub fn metallic_roughness_texture(&self) -> (r: &Option<PbrMetallicRoughnessTextureInfo>)
        ensures
            r == &self.metallic_roughness_texture,
    {
        &self.metallic_roughness_texture
    }

    pub fn metallic_factor(&self) -> (r: u32)
        ensures
            r == self.metallic_factor,
    {
        self.metallic_factor
    }

    pub fn roughness_factor(&self) -> (r: u32)
        ensures
            r == self.roughness_factor,
    {
        self.roughness_factor
    }
}

impl NormalTextureInfo {
    pub fn new(scale: u32, index: usize, tex_coord: usize) -> (r: Self)
        ensures
            r.scale == scale,
            r.index == index,
            r.tex_coord == tex_coord,
    {
        Self { scale, index, tex_coord }
    }

    pub fn scale(&self) -> (r: u32)
        ensures
            r == self.scale,
    {
        self.scale
    }

    pub fn index(&self) -> (r: usize)
        ensures
            r == self.index,
    {
        self.index
    }

    pub fn tex_coord(&self) -> (r: usize)
        ensures
            r == self.tex_coord,
    {
        self.tex_coord
    }
}

impl OcclusionTextureInfo {
    pub fn new(strength: u32, index: usize, tex_coord: usize) -> (r: Self)
        ensures
            r.strength == strength,
            r.index == index,
            r.tex_coord == tex_coord,
    {
        Self { strength, index, tex_coord }
    }

    pub fn strength(&self) -> (r: u32)
        ensures
            r == self.strength,
    {
        self.strength
    }

    pub fn index(&self) -> (r: usize)
        ensures
            r == self.index,
    {
        self.index
    }

    pub fn tex_coord(&self) -> (r: usize)
        ensures
            r == self.tex_coord,
    {
        self.tex_coord
    }
}

} // verus!
