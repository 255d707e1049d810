//! The asset graph builder: turns a parsed document plus externally resolved
//! payloads into the loaded asset graph, one ordered pass per table, in the
//! order buffers, buffer views, accessors, images, samplers, textures,
//! materials, meshes. Later passes reference earlier tables by index, so the
//! order is a hard invariant.
//!
//! A buffer or image whose payload is missing, or whose source kind is
//! unsupported, does not abort the load: the pass records one failure for it
//! and keeps a sentinel entry at its position, so that position always equals
//! document index. A dangling index reference is fatal and aborts the load.

use vstd::prelude::*;
use crate::document::AccessorDecl;
use crate::document::BufferDecl;
use crate::document::BufferViewDecl;
use crate::document::GltfDocument;
use crate::document::ImageDecl;
use crate::document::ImageSource;
use crate::document::MaterialDecl;
use crate::document::MeshDecl;
use crate::document::ResourceKind;
use crate::document::ResourceSource;
use crate::document::SamplerDecl;
use crate::document::TextureDecl;
use crate::error::GltfError;
use crate::loaded::LoadedGltf;
use crate::loaded::LoadedGltfAccessor;
use crate::loaded::LoadedGltfBuffer;
use crate::loaded::LoadedGltfBufferView;
use crate::loaded::LoadedGltfImage;
use crate::loaded::LoadedGltfMaterial;
use crate::loaded::LoadedGltfMesh;
use crate::loaded::LoadedGltfSampler;
use crate::loaded::LoadedGltfTexture;

verus! {

/// One resource the host is asked to fetch: which table it belongs to, its
/// document index, its URI, and (for images) the optional MIME-type hint.
#[derive(Debug)]
pub struct ResourceRequest {
    pub kind: ResourceKind,
    pub index: usize,
    pub uri: String,
    pub mime_type: Option<String>,
}

/// One per-resource failure the load reports: which table, which document
/// index, and whether resolution failed or the source kind is unsupported.
#[derive(Clone, Copy, Debug, PartialEq, Eq, Structural)]
pub struct ResourceFailure {
    pub kind: ResourceKind,
    pub index: usize,
    pub error: GltfError,
}

/// What a completed load hands back: the populated graph and the list of
/// per-resource failures, buffers first, each in document order.
pub struct LoadOutcome {
    pub graph: LoadedGltf,
    pub failures: Vec<ResourceFailure>,
}

/// How the buffer at position `index` loads from its declaration and its
/// payload: a URI-sourced buffer takes the payload as its data (`None` marks
/// it unresolved), an inline-sourced buffer is unsupported and keeps a
/// sentinel with an empty URI and no data.
pub open spec fn spec_buffer_built(
    index: int,
    decl: BufferDecl,
    payload: Option<Vec<u8>>,
    b: LoadedGltfBuffer,
) -> bool {
    &&& b.index == index
    &&& match decl.source {
        ResourceSource::Uri(uri) => b.uri == uri && b.data == payload,
        ResourceSource::Inline => b.uri@ == Seq::<char>::empty() && b.data is None,
    }
}

/// The failure entries of the buffer at position `index`: one resolution
/// failure for a URI-sourced buffer without a payload, one unsupported-source
/// failure for an inline-sourced buffer, nothing otherwise.
pub open spec fn spec_buffer_failure_head(
    decl: BufferDecl,
    payload: Option<Vec<u8>>,
    index: int,
) -> Seq<ResourceFailure> {
    match decl.source {
        ResourceSource::Uri(_) => if payload is None {
            seq![
                ResourceFailure {
                    kind: ResourceKind::Buffer,
                    index: index as usize,
                    error: GltfError::ResourceResolutionFailed,
                },
            ]
        } else {
            Seq::<ResourceFailure>::empty()
        },
        ResourceSource::Inline => seq![
            ResourceFailure {
                kind: ResourceKind::Buffer,
                index: index as usize,
                error: GltfError::UnsupportedSourceKind,
            },
        ],
    }
}

/// The failure entries of the first `n` buffers, in document order.
pub open spec fn spec_buffer_failures(
    decls: Seq<BufferDecl>,
    payloads: Seq<Option<Vec<u8>>>,
    n: int,
) -> Seq<ResourceFailure>
    decreases n,
{
    if n <= 0 {
        Seq::<ResourceFailure>::empty()
    } else {
        spec_buffer_failures(decls, payloads, n - 1) + spec_buffer_failure_head(
            decls[n - 1],
            payloads[n - 1],
            n - 1,
        )
    }
}

/// How the image at position `index` loads from its declaration and its
/// payload, exactly as for buffers.
pub open spec fn spec_image_built(
    index: int,
    decl: ImageDecl,
    payload: Option<Vec<u8>>,
    img: LoadedGltfImage,
) -> bool {
    &&& img.index == index
    &&& match decl.source {
        ImageSource::Uri { uri, .. } => img.uri == uri && img.data == payload,
        ImageSource::Inline => img.uri@ == Seq::<char>::empty() && img.data is None,
    }
}

/// The failure entries of the image at position `index`.
pub open spec fn spec_image_failure_head(
    decl: ImageDecl,
    payload: Option<Vec<u8>>,
    index: int,
) -> Seq<ResourceFailure> {
    match decl.source {
        ImageSource::Uri { .. } => if payload is None {
            seq![
                ResourceFailure {
                    kind: ResourceKind::Image,
                    index: index as usize,
                    error: GltfError::ResourceResolutionFailed,
                },
            ]
        } else {
            Seq::<ResourceFailure>::empty()
        },
        ImageSource::Inline => seq![
            ResourceFailure {
                kind: ResourceKind::Image,
                index: index as usize,
                error: GltfError::UnsupportedSourceKind,
            },
        ],
    }
}

/// The failure entries of the first `n` images, in document order.
pub open spec fn spec_image_failures(
    decls: Seq<ImageDecl>,
    payloads: Seq<Option<Vec<u8>>>,
    n: int,
) -> Seq<ResourceFailure>
    decreases n,
{
    if n <= 0 {
        Seq::<ResourceFailure>::empty()
    } else {
        spec_image_failures(decls, payloads, n - 1) + spec_image_failure_head(
            decls[n - 1],
            payloads[n - 1],
            n - 1,
        )
    }
}

/// Whether a declared buffer view references an existing buffer.
pub open spec fn spec_view_decl_ok(decl: BufferViewDecl, buffers_len: int) -> bool {
    decl.buffer_index < buffers_len
}

/// The buffer view at position `index`, transcribed from its declaration.
pub open spec fn spec_build_view(index: int, decl: BufferViewDecl) -> LoadedGltfBufferView {
    LoadedGltfBufferView {
        index: index as usize,
        buffer_index: decl.buffer_index,
        data_offset: decl.data_offset,
        data_length: decl.data_length,
        data_stride: decl.data_stride,
        target: decl.target,
    }
}

/// Whether a declared accessor references an existing buffer view.
pub open spec fn spec_accessor_decl_ok(decl: AccessorDecl, views_len: int) -> bool {
    &&& decl.buffer_view_index is Some
    &&& decl.buffer_view_index->0 < views_len
}

/// How the accessor at position `index` transcribes from its declaration.
pub open spec fn spec_accessor_built(
    index: int,
    decl: AccessorDecl,
    a: LoadedGltfAccessor,
) -> bool {
    &&& a.index == index
    &&& a.buffer_view_index == decl.buffer_view_index->0
    &&& a.comp_size == decl.comp_size
    &&& a.comp_count == decl.comp_count
    &&& a.max_values == decl.max_values
    &&& a.min_values == decl.min_values
    &&& a.dimensions == decl.dimensions
}

/// How the sampler at position `index` transcribes from its declaration.
pub open spec fn spec_sampler_built(index: int, decl: SamplerDecl, s: LoadedGltfSampler) -> bool {
    &&& s.index == Some(index as usize)
    &&& s.mag_filter == decl.mag_filter
    &&& s.min_filter == decl.min_filter
    &&& s.name == decl.name
    &&& s.wrap_s == decl.wrap_s
    &&& s.wrap_t == decl.wrap_t
}

/// Whether a declared texture references an existing image and sampler.
pub open spec fn spec_texture_decl_ok(
    decl: TextureDecl,
    images_len: int,
    samplers_len: int,
) -> bool {
    &&& decl.source_index < images_len
    &&& decl.sampler_index < samplers_len
}

/// The texture at position `index`, transcribed from its declaration.
pub open spec fn spec_build_texture(index: int, decl: TextureDecl) -> LoadedGltfTexture {
    LoadedGltfTexture {
        index: index as usize,
        source_index: decl.source_index,
        sampler_index: decl.sampler_index,
    }
}

/// The material at position `index`, transcribed from its declaration.
pub open spec fn spec_build_material(index: int, decl: MaterialDecl) -> LoadedGltfMaterial {
    LoadedGltfMaterial {
        index: Some(index as usize),
        pbr_metallic_roughness: decl.pbr_metallic_roughness,
        normal_texture: decl.normal_texture,
        occlusion_texture: decl.occlusion_texture,
        emissive_texture: decl.emissive_texture,
        emissive_factor: decl.emissive_factor,
    }
}

/// How the mesh at position `index` transcribes from its declaration.
pub open spec fn spec_mesh_built(index: int, decl: MeshDecl, m: LoadedGltfMesh) -> bool {
    &&& m.index == index
    &&& m.primitives == decl.primitives
    &&& m.weights == decl.weights
}

/// Cross-reference validity of a whole document: every buffer view names an
/// existing buffer, every accessor an existing buffer view, and every texture
/// an existing image and sampler. A load succeeds exactly on such documents.
pub open spec fn spec_document_structure_ok(document: GltfDocument) -> bool {
    &&& forall|j: int|
        0 <= j < document.buffer_views@.len() ==> spec_view_decl_ok(
            #[trigger] document.buffer_views@[j],
            document.buffers@.len() as int,
        )
    &&& forall|j: int|
        0 <= j < document.accessors@.len() ==> spec_accessor_decl_ok(
            #[trigger] document.accessors@[j],
            document.buffer_views@.len() as int,
        )
    &&& forall|j: int|
        0 <= j < document.textures@.len() ==> spec_texture_decl_ok(
            #[trigger] document.textures@[j],
            document.images@.len() as int,
            document.samplers@.len() as int,
        )
}

/// The buffers pass: pairs each declared buffer with its payload, appending a
/// resolved entry or a sentinel, and records one failure per buffer whose
/// payload is missing or whose source kind is unsupported. Never fatal.
pub fn build_buffers(decls: Vec<BufferDecl>, payloads: Vec<Option<Vec<u8>>>) -> (r: (
    Vec<LoadedGltfBuffer>,
    Vec<ResourceFailure>,
))
    requires
        decls@.len() == payloads@.len(),
    ensures
        r.0@.len() == decls@.len(),
        forall|j: int|
            0 <= j < decls@.len() ==> spec_buffer_built(j, decls@[j], payloads@[j], #[trigger] r.0@[j]),
        r.1@ == spec_buffer_failures(decls@, payloads@, decls@.len() as int),
{
    let ghost decls0 = decls@;
    let ghost payloads0 = payloads@;
    let mut remaining = decls;
    let mut remaining_payloads = payloads;
    let total: usize = remaining.len();
    let mut out: Vec<LoadedGltfBuffer> = Vec::new();
    let mut failures: Vec<ResourceFailure> = Vec::new();
    let mut i: usize = 0;
    while remaining.len() > 0
        invariant
            total == decls0.len(),
            i + remaining@.len() == decls0.len(),
            remaining@ == decls0.skip(i as int),
            remaining_payloads@ == payloads0.skip(i as int),
            payloads0.len() == decls0.len(),
            out@.len() == i,
            forall|j: int|
                0 <= j < i ==> spec_buffer_built(j, decls0[j], payloads0[j], #[trigger] out@[j]),
            failures@ == spec_buffer_failures(decls0, payloads0, i as int),
        decreases remaining@.len(),
    {
        let ghost pre_failures = failures@;
        let decl = remaining.remove(0);
        let payload = remaining_payloads.remove(0);
        proof {
            assert(decl == decls0[i as int]);
            assert(payload == payloads0[i as int]);
            assert(remaining@ =~= decls0.skip(i + 1));
            assert(remaining_payloads@ =~= payloads0.skip(i + 1));
        }
        match decl.source {
            ResourceSource::Uri(uri) => {
                match payload {
                    Some(data) => {
                        out.push(LoadedGltfBuffer::new(i, uri, data));
                    },
                    None => {
                        out.push(LoadedGltfBuffer::new_unresolved(i, uri));
                        failures.push(
                            ResourceFailure {
                                kind: ResourceKind::Buffer,
                                index: i,
                                error: GltfError::ResourceResolutionFailed,
                            },
                        );
                    },
                }
            },
            ResourceSource::Inline => {
                out.push(LoadedGltfBuffer::new_unresolved(i, String::new()));
                failures.push(
                    ResourceFailure {
                        kind: ResourceKind::Buffer,
                        index: i,
                        error: GltfError::UnsupportedSourceKind,
                    },
                );
            },
        }
        proof {
            assert(failures@ =~= pre_failures + spec_buffer_failure_head(
                decls0[i as int],
                payloads0[i as int],
                i as int,
            ));
            assert(failures@ == spec_buffer_failures(decls0, payloads0, i + 1));
        }
        i = i + 1;
    }
    (out, failures)
}

/// The images pass: same resolve-or-tolerate policy as the buffers pass.
pub fn build_images(decls: Vec<ImageDecl>, payloads: Vec<Option<Vec<u8>>>) -> (r: (
    Vec<LoadedGltfImage>,
    Vec<ResourceFailure>,
))
    requires
        decls@.len() == payloads@.len(),
    ensures
        r.0@.len() == decls@.len(),
        forall|j: int|
            0 <= j < decls@.len() ==> spec_image_built(j, decls@[j], payloads@[j], #[trigger] r.0@[j]),
        r.1@ == spec_image_failures(decls@, payloads@, decls@.len() as int),
{
    let ghost decls0 = decls@;
    let ghost payloads0 = payloads@;
    let mut remaining = decls;
    let mut remaining_payloads = payloads;
    let total: usize = remaining.len();
    let mut out: Vec<LoadedGltfImage> = Vec::new();
    let mut failures: Vec<ResourceFailure> = Vec::new();
    let mut i: usize = 0;
    while remaining.len() > 0
        invariant
            total == decls0.len(),
            i + remaining@.len() == decls0.len(),
            remaining@ == decls0.skip(i as int),
            remaining_payloads@ == payloads0.skip(i as int),
            payloads0.len() == decls0.len(),
            out@.len() == i,
            forall|j: int|
                0 <= j < i ==> spec_image_built(j, decls0[j], payloads0[j], #[trigger] out@[j]),
            failures@ == spec_image_failures(decls0, payloads0, i as int),
        decreases remaining@.len(),
    {
        let ghost pre_failures = failures@;
        let decl = remaining.remove(0);
        let payload = remaining_payloads.remove(0);
        proof {
            assert(decl == decls0[i as int]);
            assert(payload == payloads0[i as int]);
            assert(remaining@ =~= decls0.skip(i + 1));
            assert(remaining_payloads@ =~= payloads0.skip(i + 1));
        }
        match decl.source {
            ImageSource::Uri { uri, mime_type: _ } => {
                match payload {
                    Some(data) => {
                        out.push(LoadedGltfImage::new(i, uri, data));
                    },
                    None => {
                        out.push(LoadedGltfImage::new_unresolved(i, uri));
                        failures.push(
                            ResourceFailure {
                                kind: ResourceKind::Image,
                                index: i,
                                error: GltfError::ResourceResolutionFailed,
                            },
                        );
                    },
                }
            },
            ImageSource::Inline => {
                out.push(LoadedGltfImage::new_unresolved(i, String::new()));
                failures.push(
                    ResourceFailure {
                        kind: ResourceKind::Image,
                        index: i,
                        error: GltfError::UnsupportedSourceKind,
                    },
                );
            },
        }
        proof {
            assert(failures@ =~= pre_failures + spec_image_failure_head(
                decls0[i as int],
                payloads0[i as int],
                i as int,
            ));
            assert(failures@ == spec_image_failures(decls0, payloads0, i + 1));
        }
        i = i + 1;
    }
    (out, failures)
}

/// The buffer views pass: pure structural transcription; a view referencing a
/// buffer index outside the buffers table aborts the load.
pub fn build_buffer_views(decls: &Vec<BufferViewDecl>, buffers_len: usize) -> (r: Result<
    Vec<LoadedGltfBufferView>,
    GltfError,
>)
    ensures
        r is Ok <==> (forall|j: int|
            0 <= j < decls@.len() ==> spec_view_decl_ok(#[trigger] decls@[j], buffers_len as int)),
        r is Ok ==> r->Ok_0@.len() == decls@.len() && forall|j: int|
            0 <= j < decls@.len() ==> r->Ok_0@[j] == spec_build_view(j, #[trigger] decls@[j]),
        r is Err ==> r->Err_0 == GltfError::DocumentMalformed,
{
    let mut out: Vec<LoadedGltfBufferView> = Vec::new();
    let mut i: usize = 0;
    while i < decls.len()
        invariant
            i <= decls@.len(),
            out@.len() == i,
            forall|j: int|
                0 <= j < i ==> spec_view_decl_ok(#[trigger] decls@[j], buffers_len as int),
            forall|j: int| 0 <= j < i ==> out@[j] == spec_build_view(j, #[trigger] decls@[j]),
        decreases decls@.len() - i,
    {
        let decl = &decls[i];
        if decl.buffer_index >= buffers_len {
            return Err(GltfError::DocumentMalformed);
        }
        out.push(LoadedGltfBufferView::new_from_view(i, decl));
        i = i + 1;
    }
    Ok(out)
}

/// The accessors pass: pure structural transcription; an accessor without a
/// buffer view, or referencing a view index outside the views table, aborts
/// the load.
pub fn build_accessors(decls: Vec<AccessorDecl>, views_len: usize) -> (r: Result<
    Vec<LoadedGltfAccessor>,
    GltfError,
>)
    ensures
        r is Ok <==> (forall|j: int|
            0 <= j < decls@.len() ==> spec_accessor_decl_ok(#[trigger] decls@[j], views_len as int)),
        r is Ok ==> r->Ok_0@.len() == decls@.len() && forall|j: int|
            0 <= j < decls@.len() ==> spec_accessor_built(j, #[trigger] decls@[j], r->Ok_0@[j]),
        r is Err ==> r->Err_0 == GltfError::DocumentMalformed,
{
    let mut i: usize = 0;
    while i < decls.len()
        invariant
            i <= decls@.len(),
            forall|j: int|
                0 <= j < i ==> spec_accessor_decl_ok(#[trigger] decls@[j], views_len as int),
        decreases decls@.len() - i,
    {
        match decls[i].buffer_view_index {
            None => {
                return Err(GltfError::DocumentMalformed);
            },
            Some(view_index) => {
                if view_index >= views_len {
                    return Err(GltfError::DocumentMalformed);
                }
            },
        }
        i = i + 1;
    }
    let ghost decls0 = decls@;
    let mut remaining = decls;
    let total: usize = remaining.len();
    let mut out: Vec<LoadedGltfAccessor> = Vec::new();
    let mut i: usize = 0;
    while remaining.len() > 0
        invariant
            total == decls0.len(),
            i + remaining@.len() == decls0.len(),
            remaining@ == decls0.skip(i as int),
            out@.len() == i,
            forall|j: int|
                0 <= j < decls0.len() ==> spec_accessor_decl_ok(
                    #[trigger] decls0[j],
                    views_len as int,
                ),
            forall|j: int| 0 <= j < i ==> spec_accessor_built(j, #[trigger] decls0[j], out@[j]),
        decreases remaining@.len(),
    {
        let decl = remaining.remove(0);
        proof {
            assert(decl == decls0[i as int]);
            assert(remaining@ =~= decls0.skip(i + 1));
        }
        match LoadedGltfAccessor::new_from_accessor(i, decl) {
            None => {
                return Err(GltfError::DocumentMalformed);
            },
            Some(accessor) => {
                out.push(accessor);
            },
        }
        i = i + 1;
    }
    Ok(out)
}

/// The samplers pass: pure structural transcription; cannot fail. Every
/// loaded sampler carries its document index (the implicit default sampler,
/// which carries none, is never declared).
pub fn build_samplers(decls: Vec<SamplerDecl>) -> (out: Vec<LoadedGltfSampler>)
    ensures
        out@.len() == decls@.len(),
        forall|j: int|
            0 <= j < decls@.len() ==> spec_sampler_built(j, #[trigger] decls@[j], out@[j]),
{
    let ghost decls0 = decls@;
    let mut remaining = decls;
    let total: usize = remaining.len();
    let mut out: Vec<LoadedGltfSampler> = Vec::new();
    let mut i: usize = 0;
    while remaining.len() > 0
        invariant
            total == decls0.len(),
            i + remaining@.len() == decls0.len(),
            remaining@ == decls0.skip(i as int),
            out@.len() == i,
            forall|j: int| 0 <= j < i ==> spec_sampler_built(j, #[trigger] decls0[j], out@[j]),
        decreases remaining@.len(),
    {
        let decl = remaining.remove(0);
        proof {
            assert(decl == decls0[i as int]);
            assert(remaining@ =~= decls0.skip(i + 1));
        }
        out.push(LoadedGltfSampler::new_from_sampler(i, decl));
        i = i + 1;
    }
    out
}

/// The textures pass: pure structural transcription; a texture referencing an
/// image or sampler index outside its table aborts the load.
pub fn build_textures(decls: &Vec<TextureDecl>, images_len: usize, samplers_len: usize) -> (r:
    Result<Vec<LoadedGltfTexture>, GltfError>)
    ensures
        r is Ok <==> (forall|j: int|
            0 <= j < decls@.len() ==> spec_texture_decl_ok(
                #[trigger] decls@[j],
                images_len as int,
                samplers_len as int,
            )),
        r is Ok ==> r->Ok_0@.len() == decls@.len() && forall|j: int|
            0 <= j < decls@.len() ==> r->Ok_0@[j] == spec_build_texture(j, #[trigger] decls@[j]),
        r is Err ==> r->Err_0 == GltfError::DocumentMalformed,
{
    let mut out: Vec<LoadedGltfTexture> = Vec::new();
    let mut i: usize = 0;
    while i < decls.len()
        invariant
            i <= decls@.len(),
            out@.len() == i,
            forall|j: int|
                0 <= j < i ==> spec_texture_decl_ok(
                    #[trigger] decls@[j],
                    images_len as int,
                    samplers_len as int,
                ),
            forall|j: int| 0 <= j < i ==> out@[j] == spec_build_texture(j, #[trigger] decls@[j]),
        decreases decls@.len() - i,
    {
        let decl = &decls[i];
        if decl.source_index >= images_len || decl.sampler_index >= samplers_len {
            return Err(GltfError::DocumentMalformed);
        }
        out.push(LoadedGltfTexture::new_from_texture(i, decl));
        i = i + 1;
    }
    Ok(out)
}

/// The materials pass: pure structural transcription; cannot fail. Every
/// loaded material carries its document index (the implicit default material,
/// which carries none, is never declared).
pub fn build_materials(decls: &Vec<MaterialDecl>) -> (out: Vec<LoadedGltfMaterial>)
    ensures
        out@.len() == decls@.len(),
        forall|j: int| 0 <= j < decls@.len() ==> out@[j] == spec_build_material(j, #[trigger] decls@[j]),
{
    let mut out: Vec<LoadedGltfMaterial> = Vec::new();
    let mut i: usize = 0;
    while i < decls.len()
        invariant
            i <= decls@.len(),
            out@.len() == i,
            forall|j: int| 0 <= j < i ==> out@[j] == spec_build_material(j, #[trigger] decls@[j]),
        decreases decls@.len() - i,
    {
        let decl = &decls[i];
        out.push(LoadedGltfMaterial::new_from_material(i, decl));
        i = i + 1;
    }
    out
}

/// The meshes pass: pure structural transcription; cannot fail.
pub fn build_meshes(decls: Vec<MeshDecl>) -> (out: Vec<LoadedGltfMesh>)
    ensures
        out@.len() == decls@.len(),
        forall|j: int| 0 <= j < decls@.len() ==> spec_mesh_built(j, #[trigger] decls@[j], out@[j]),
{
    let ghost decls0 = decls@;
    let mut remaining = decls;
    let total: usize = remaining.len();
    let mut out: Vec<LoadedGltfMesh> = Vec::new();
    let mut i: usize = 0;
    while remaining.len() > 0
        invariant
            total == decls0.len(),
            i + remaining@.len() == decls0.len(),
            remaining@ == decls0.skip(i as int),
            out@.len() == i,
            forall|j: int| 0 <= j < i ==> spec_mesh_built(j, #[trigger] decls0[j], out@[j]),
        decreases remaining@.len(),
    {
        let decl = remaining.remove(0);
        proof {
            assert(decl == decls0[i as int]);
            assert(remaining@ =~= decls0.skip(i + 1));
        }
        out.push(LoadedGltfMesh::new_from_mesh(i, decl));
        i = i + 1;
    }
    out
}

/// Loads a whole document against the payloads the host resolved: one payload
/// slot per declared buffer and per declared image, `None` where resolution
/// failed (slots of inline-sourced entries are ignored). On a structurally
/// sound document the load returns the populated graph, whose tables keep
/// position equal to document index, together with the per-resource failures
/// in document order, buffers before images. A document with a dangling index
/// reference fails as malformed and nothing is returned for it.
pub fn load_asset(
    document: GltfDocument,
    buffer_payloads: Vec<Option<Vec<u8>>>,
    image_payloads: Vec<Option<Vec<u8>>>,
) -> (r: Result<LoadOutcome, GltfError>)
    requires
        buffer_payloads@.len() == document.buffers@.len(),
        image_payloads@.len() == document.images@.len(),
    ensures
        r is Ok <==> spec_document_structure_ok(document),
        r is Err ==> r->Err_0 == GltfError::DocumentMalformed,
        r is Ok ==> {
            let graph = r->Ok_0.graph;
            &&& graph.wf()
            &&& graph.buffers@.len() == document.buffers@.len()
            &&& forall|j: int|
                0 <= j < document.buffers@.len() ==> spec_buffer_built(
                    j,
                    document.buffers@[j],
                    buffer_payloads@[j],
                    #[trigger] graph.buffers@[j],
                )
            &&& graph.buffer_views@.len() == document.buffer_views@.len()
            &&& forall|j: int|
                0 <= j < document.buffer_views@.len() ==> graph.buffer_views@[j]
                    == spec_build_view(j, #[trigger] document.buffer_views@[j])
            &&& graph.accessors@.len() == document.accessors@.len()
            &&& forall|j: int|
                0 <= j < document.accessors@.len() ==> spec_accessor_built(
                    j,
                    #[trigger] document.accessors@[j],
                    graph.accessors@[j],
                )
            &&& graph.images@.len() == document.images@.len()
            &&& forall|j: int|
                0 <= j < document.images@.len() ==> spec_image_built(
                    j,
                    document.images@[j],
                    image_payloads@[j],
                    #[trigger] graph.images@[j],
                )
            &&& graph.samplers@.len() == document.samplers@.len()
            &&& forall|j: int|
                0 <= j < document.samplers@.len() ==> spec_sampler_built(
                    j,
                    #[trigger] document.samplers@[j],
                    graph.samplers@[j],
                )
            &&& graph.textures@.len() == document.textures@.len()
            &&& forall|j: int|
                0 <= j < document.textures@.len() ==> graph.textures@[j] == spec_build_texture(
                    j,
                    #[trigger] document.textures@[j],
                )
            &&& graph.materials@.len() == document.materials@.len()
            &&& forall|j: int|
                0 <= j < document.materials@.len() ==> graph.materials@[j] == spec_build_material(
                    j,
                    #[trigger] document.materials@[j],
                )
            &&& graph.meshes@.len() == document.meshes@.len()
            &&& forall|j: int|
                0 <= j < document.meshes@.len() ==> spec_mesh_built(
                    j,
                    #[trigger] document.meshes@[j],
                    graph.meshes@[j],
                )
            &&& r->Ok_0.failures@ == spec_buffer_failures(
                document.buffers@,
                buffer_payloads@,
                document.buffers@.len() as int,
            ) + spec_image_failures(
                document.images@,
                image_payloads@,
                document.images@.len() as int,
            )
        },
{
    let GltfDocument {
        buffers: buffer_decls,
        buffer_views: view_decls,
        accessors: accessor_decls,
        images: image_decls,
        samplers: sampler_decls,
        textures: texture_decls,
        materials: material_decls,
        meshes: mesh_decls,
    } = document;
    let (buffers, mut failures) = build_buffers(buffer_decls, buffer_payloads);
    let buffer_views = match build_buffer_views(&view_decls, buffers.len()) {
        Ok(views) => views,
        Err(e) => {
            return Err(e);
        },
    };
    let accessors = match build_accessors(accessor_decls, buffer_views.len()) {
        Ok(accessors) => accessors,
        Err(e) => {
            return Err(e);
        },
    };
    let (images, mut image_failures) = build_images(image_decls, image_payloads);
    let samplers = build_samplers(sampler_decls);
    let textures = match build_textures(&texture_decls, images.len(), samplers.len()) {
        Ok(textures) => textures,
        Err(e) => {
            return Err(e);
        },
    };
    let materials = build_materials(&material_decls);
    let meshes = build_meshes(mesh_decls);
    failures.append(&mut image_failures);
    let graph = LoadedGltf {
        buffers,
        buffer_views,
        accessors,
        images,
        samplers,
        textures,
        materials,
        meshes,
    };
    proof {
        assert forall|i: int|
            0 <= i < graph.buffer_views@.len() implies (#[trigger] graph.buffer_views@[i]).buffer_index
            < graph.buffers@.len() by {
            assert(graph.buffer_views@[i] == spec_build_view(i, document.buffer_views@[i]));
        }
        assert forall|i: int|
            0 <= i < graph.accessors@.len() implies (#[trigger] graph.accessors@[i]).buffer_view_index
            < graph.buffer_views@.len() by {
            assert(spec_accessor_built(i, document.accessors@[i], graph.accessors@[i]));
            assert(spec_accessor_decl_ok(document.accessors@[i], graph.buffer_views@.len() as int));
        }
        assert forall|i: int|
            0 <= i < graph.textures@.len() implies (#[trigger] graph.textures@[i]).source_index
            < graph.images@.len() && graph.textures@[i].sampler_index < graph.samplers@.len() by {
            assert(graph.textures@[i] == spec_build_texture(i, document.textures@[i]));
        }
    }
    Ok(LoadOutcome { graph, failures })
}


/// The fetch requests of the first `n` buffers: one per URI-sourced buffer,
/// in document order, without a MIME-type hint.
pub open spec fn spec_buffer_requests(decls: Seq<BufferDecl>, n: int) -> Seq<ResourceRequest>
    decreases n,
{
    if n <= 0 {
        Seq::<ResourceRequest>::empty()
    } else {
        spec_buffer_requests(decls, n - 1) + (match decls[n - 1].source {
            ResourceSource::Uri(uri) => seq![
                ResourceRequest {
                    kind: ResourceKind::Buffer,
                    index: (n - 1) as usize,
                    uri,
                    mime_type: None,
                },
            ],
            ResourceSource::Inline => Seq::<ResourceRequest>::empty(),
        })
    }
}

/// The fetch requests of the first `n` images: one per URI-sourced image, in
/// document order, carrying the declaration's MIME-type hint.
pub open spec fn spec_image_requests(decls: Seq<ImageDecl>, n: int) -> Seq<ResourceRequest>
    decreases n,
{
    if n <= 0 {
        Seq::<ResourceRequest>::empty()
    } else {
        spec_image_requests(decls, n - 1) + (match decls[n - 1].source {
            ImageSource::Uri { uri, mime_type } => seq![
                ResourceRequest {
                    kind: ResourceKind::Image,
                    index: (n - 1) as usize,
                    uri,
                    mime_type,
                },
            ],
            ImageSource::Inline => Seq::<ResourceRequest>::empty(),
        })
    }
}

/// The URIs of the first `n` URI-sourced images, in document order.
pub open spec fn spec_image_announce_uris(decls: Seq<ImageDecl>, n: int) -> Seq<String>
    decreases n,
{
    if n <= 0 {
        Seq::<String>::empty()
    } else {
        spec_image_announce_uris(decls, n - 1) + (match decls[n - 1].source {
            ImageSource::Uri { uri, .. } => seq![uri],
            ImageSource::Inline => Seq::<String>::empty(),
        })
    }
}

/// Everything the host must fetch before the load: one request per URI-sourced
/// buffer, then one per URI-sourced image, each in document order. Entries
/// with other source kinds get no request; the load marks them unsupported.
pub fn resource_requests(document: &GltfDocument) -> (r: Vec<ResourceRequest>)
    ensures
        r@ == spec_buffer_requests(document.buffers@, document.buffers@.len() as int)
            + spec_image_requests(document.images@, document.images@.len() as int),
{
    let mut out: Vec<ResourceRequest> = Vec::new();
    let mut i: usize = 0;
    while i < document.buffers.len()
        invariant
            i <= document.buffers@.len(),
            out@ == spec_buffer_requests(document.buffers@, i as int),
        decreases document.buffers@.len() - i,
    {
        match &document.buffers[i].source {
            ResourceSource::Uri(uri) => {
                out.push(
                    ResourceRequest {
                        kind: ResourceKind::Buffer,
                        index: i,
                        uri: uri.clone(),
                        mime_type: None,
                    },
                );
            },
            ResourceSource::Inline => {},
        }
        proof {
            assert(out@ =~= spec_buffer_requests(document.buffers@, i + 1));
        }
        i = i + 1;
    }
    let ghost buffer_part = out@;
    let mut i: usize = 0;
    while i < document.images.len()
        invariant
            i <= document.images@.len(),
            out@ == buffer_part + spec_image_requests(document.images@, i as int),
        decreases document.images@.len() - i,
    {
        match &document.images[i].source {
            ImageSource::Uri { uri, mime_type } => {
                let mime_type = match mime_type {
                    Some(hint) => Some(hint.clone()),
                    None => None,
                };
                out.push(
                    ResourceRequest { kind: ResourceKind::Image, index: i, uri: uri.clone(), mime_type },
                );
            },
            ImageSource::Inline => {},
        }
        proof {
            assert(out@ =~= buffer_part + spec_image_requests(document.images@, i + 1));
        }
        i = i + 1;
    }
    out
}

/// The image URIs to announce to the host after a load: the URI of every
/// URI-sourced image the document declares, in document order, whether or not
/// its payload resolved.
pub fn image_uris_to_announce(document: &GltfDocument) -> (r: Vec<String>)
    ensures
        r@ == spec_image_announce_uris(document.images@, document.images@.len() as int),
{
    let mut out: Vec<String> = Vec::new();
    let mut i: usize = 0;
    while i < document.images.len()
        invariant
            i <= document.images@.len(),
            out@ == spec_image_announce_uris(document.images@, i as int),
        decreases document.images@.len() - i,
    {
        match &document.images[i].source {
            ImageSource::Uri { uri, mime_type: _ } => {
                out.push(uri.clone());
            },
            ImageSource::Inline => {},
        }
        proof {
            assert(out@ =~= spec_image_announce_uris(document.images@, i + 1));
        }
        i = i + 1;
    }
    out
}

} // verus!

