//! The declarative document model: plain-value descriptions of the entities a
//! glTF document declares, in declaration order. A conformant parser for the
//! document's JSON shape produces these declarations; the loader turns them
//! into the asset graph.

use vstd::prelude::*;
use crate::loaded::BufferTarget;
use crate::loaded::Dimensions;
use crate::material::EmissiveFactorInfo;
use crate::material::EmissiveTextureInfo;
use crate::material::NormalTextureInfo;
use crate::material::OcclusionTextureInfo;
use crate::material::PbrMetallicRoughnessInfo;
use crate::mesh::PrimitiveInfo;
use crate::sampler::MagFilter;
use crate::sampler::MinFilter;
use crate::sampler::WrappingMode;

verus! {

/// Which table a resource or a failure belongs to.
#[derive(Clone, Copy, Debug, PartialEq, Eq, Structural)]
pub enum ResourceKind {
    Buffer,
    Image,
}

/// Where a buffer's bytes come from: an external URI, or data embedded inline
/// in the document (which this loader does not support).
pub enum ResourceSource {
    Uri(String),
    Inline,
}

/// Where an image's bytes come from: an external URI with an optional
/// MIME-type hint, or data embedded inline in the document (unsupported).
pub enum ImageSource {
    Uri { uri: String, mime_type: Option<String> },
    Inline,
}

/// A declared buffer.
pub struct BufferDecl {
    pub source: ResourceSource,
}

/// A declared buffer view: a region of the buffer at `buffer_index`.
#[derive(Clone, Copy, Debug, PartialEq, Eq, Structural)]
pub struct BufferViewDecl {
    pub buffer_index: usize,
    pub data_offset: usize,
    pub data_length: usize,
    pub data_stride: Option<usize>,
    pub target: Option<BufferTarget>,
}

/// A declared accessor. `buffer_view_index` is `None` when the document gives
/// the accessor no buffer view, which the loader treats as fatal. The
/// optional bounding arrays are carried opaquely as their document text.
pub struct AccessorDecl {
    pub buffer_view_index: Option<usize>,
    pub comp_size: usize,
    pub comp_count: usize,
    pub max_values: Option<Vec<String>>,
    pub min_values: Option<Vec<String>>,
    pub dimensions: Dimensions,
}

/// A declared image.
pub struct ImageDecl {
    pub source: ImageSource,
}

/// A declared sampler.
pub struct SamplerDecl {
    pub mag_filter: Option<MagFilter>,
    pub min_filter: Option<MinFilter>,
    pub name: Option<String>,
    pub wrap_s: WrappingMode,
    pub wrap_t: WrappingMode,
}

/// A declared texture: one image and one sampler, both by index.
#[derive(Clone, Copy, Debug, PartialEq, Eq, Structural)]
pub struct TextureDecl {
    pub source_index: usize,
    pub sampler_index: usize,
}

/// A declared material.
#[derive(Clone, Copy)]
pub struct MaterialDecl {
    pub pbr_metallic_roughness: PbrMetallicRoughnessInfo,
    pub normal_texture: Option<NormalTextureInfo>,
    pub occlusion_texture: Option<OcclusionTextureInfo>,
    pub emissive_texture: Option<EmissiveTextureInfo>,
    pub emissive_factor: EmissiveFactorInfo,
}

/// A declared mesh: its primitives and its morph-target weights (weights as
/// binary32 bit patterns; empty when the document defines none).
pub struct MeshDecl {
    pub primitives: Vec<PrimitiveInfo>,
    pub weights: Vec<u32>,
}

/// A whole parsed document: every top-level entity table in declaration
/// order. Cross-references between tables are zero-based indices into the
/// declaration order.
pub struct GltfDocument {
    pub buffers: Vec<BufferDecl>,
    pub buffer_views: Vec<BufferViewDecl>,
    pub accessors: Vec<AccessorDecl>,
    pub images: Vec<ImageDecl>,
    pub samplers: Vec<SamplerDecl>,
    pub textures: Vec<TextureDecl>,
    pub materials: Vec<MaterialDecl>,
    pub meshes: Vec<MeshDecl>,
}

impl GltfDocument {
    /// A document declaring nothing.
    pub fn new() -> (r: Self)
        ensures
            r.buffers@.len() == 0,
            r.buffer_views@.len() == 0,
            r.accessors@.len() == 0,
            r.images@.len() == 0,
            r.samplers@.len() == 0,
            r.textures@.len() == 0,
            r.materials@.len() == 0,
            r.meshes@.len() == 0,
    {
        Self {
            buffers: Vec::new(),
            buffer_views: Vec::new(),
            accessors: Vec::new(),
            images: Vec::new(),
            samplers: Vec::new(),
            textures: Vec::new(),
            materials: Vec::new(),
            meshes: Vec::new(),
        }
    }
}

} // verus!
