//! The loaded asset graph: flat, index-linked tables of buffers, buffer
//! views, accessors, images, samplers, textures, materials and meshes, plus
//! the strided region reader and the typed accessor decoder that turn raw
//! buffer bytes into typed numeric values.
//!
//! Every entity holds plain values and integer indices into sibling tables;
//! cross-table lookups go through the owning [`LoadedGltf`], which is passed
//! explicitly to the decode operations. Position in a table always equals the
//! entity's document index, also for buffers and images whose payload could
//! not be resolved: those keep a sentinel entry with no data.

use vstd::prelude::*;
use vstd::arithmetic::mul::lemma_mul_inequality;
use crate::bits::spec_u8_to_u32;
use crate::bits::u8_to_u32;
use crate::document::AccessorDecl;
use crate::document::BufferViewDecl;
use crate::document::MaterialDecl;
use crate::document::MeshDecl;
use crate::document::ResourceKind;
use crate::document::SamplerDecl;
use crate::document::TextureDecl;
use crate::error::GltfError;
use crate::material::EmissiveFactorInfo;
use crate::material::EmissiveTextureInfo;
use crate::material::NormalTextureInfo;
use crate::material::OcclusionTextureInfo;
use crate::material::PbrMetallicRoughnessInfo;
use crate::mesh::PrimitiveInfo;
use crate::sampler::MagFilter;
use crate::sampler::MinFilter;
use crate::sampler::WrappingMode;
use crate::sampler::mag_filter_to_gl_value;
use crate::sampler::min_filter_to_gl_value;
use crate::sampler::spec_mag_filter_gl;
use crate::sampler::spec_min_filter_gl;
use crate::sampler::spec_wrapping_mode_gl;
use crate::sampler::wrapping_mode_to_gl_value;

verus! {

/// What a buffer view's data is meant for on the graphics side.
#[derive(Clone, Copy, Debug, PartialEq, Eq, Structural)]
pub enum BufferTarget {
    ArrayBuffer,
    ElementArrayBuffer,
}

/// Shape of an accessor's elements: a scalar, a column vector of 2 to 4
/// components, or a square matrix of order 2 to 4.
#[derive(Clone, Copy, Debug, PartialEq, Eq, Structural)]
pub enum Dimensions {
    Scalar,
    Vec2,
    Vec3,
    Vec4,
    Mat2,
    Mat3,
    Mat4,
}

impl Dimensions {
    /// How many 32-bit components one element of this shape holds.
    pub open spec fn spec_component_count(self) -> nat {
        match self {
            Dimensions::Scalar => 1,
            Dimensions::Vec2 => 2,
            Dimensions::Vec3 => 3,
            Dimensions::Vec4 => 4,
            Dimensions::Mat2 => 4,
            Dimensions::Mat3 => 9,
            Dimensions::Mat4 => 16,
        }
    }

    /// How many 32-bit components one element of this shape holds.
    pub fn component_count(&self) -> (n: usize)
        ensures
            n == self.spec_component_count(),
    {
        match self {
            Dimensions::Scalar => 1,
            Dimensions::Vec2 => 2,
            Dimensions::Vec3 => 3,
            Dimensions::Vec4 => 4,
            Dimensions::Mat2 => 4,
            Dimensions::Mat3 => 9,
            Dimensions::Mat4 => 16,
        }
    }
}

/// One decoded accessor element: a scalar, vector or matrix whose components
/// are IEEE-754 binary32 bit patterns. Vector components are in x, y, z, w
/// order; matrix components are in the byte stream's order, row by row.
#[derive(Clone, Copy, Debug, PartialEq, Eq, Structural)]
pub enum LoadedGltfAccessorDatum {
    Scalar(u32),
    Vec2(u32, u32),
    Vec3(u32, u32, u32),
    Vec4(u32, u32, u32, u32),
    Mat2(u32, u32, u32, u32),
    Mat3(u32, u32, u32, u32, u32, u32, u32, u32, u32),
    Mat4(
        u32,
        u32,
        u32,
        u32,
        u32,
        u32,
        u32,
        u32,
        u32,
        u32,
        u32,
        u32,
        u32,
        u32,
        u32,
        u32,
    ),
}

impl LoadedGltfAccessorDatum {
    pub fn scalar_of(num: u32) -> (r: Self)
        ensures
            r == LoadedGltfAccessorDatum::Scalar(num),
    {
        Self::Scalar(num)
    }

    pub fn vec2_of(x: u32, y: u32) -> (r: Self)
        ensures
            r == LoadedGltfAccessorDatum::Vec2(x, y),
    {
        Self::Vec2(x, y)
    }

    pub fn vec3_of(x: u32, y: u32, z: u32) -> (r: Self)
        ensures
            r == LoadedGltfAccessorDatum::Vec3(x, y, z),
    {
        Self::Vec3(x, y, z)
    }

    pub fn vec4_of(x: u32, y: u32, z: u32, w: u32) -> (r: Self)
        ensures
            r == LoadedGltfAccessorDatum::Vec4(x, y, z, w),
    {
        Self::Vec4(x, y, z, w)
    }

    pub fn mat2_of(a00: u32, a01: u32, a10: u32, a11: u32) -> (r: Self)
        ensures
            r == LoadedGltfAccessorDatum::Mat2(a00, a01, a10, a11),
    {
        Self::Mat2(a00, a01, a10, a11)
    }

    pub fn mat3_of(
        a00: u32,
        a01: u32,
        a02: u32,
        a10: u32,
        a11: u32,
        a12: u32,
        a20: u32,
        a21: u32,
        a22: u32,
    ) -> (r: Self)
        ensures
            r == LoadedGltfAccessorDatum::Mat3(a00, a01, a02, a10, a11, a12, a20, a21, a22),
    {
        Self::Mat3(a00, a01, a02, a10, a11, a12, a20, a21, a22)
    }

    pub fn mat4_of(
        a00: u32,
        a01: u32,
        a02: u32,
        a03: u32,
        a10: u32,
        a11: u32,
        a12: u32,
        a13: u32,
        a20: u32,
        a21: u32,
        a22: u32,
        a23: u32,
        a30: u32,
        a31: u32,
        a32: u32,
        a33: u32,
    ) -> (r: Self)
        ensures
            r == LoadedGltfAccessorDatum::Mat4(
                a00,
                a01,
                a02,
                a03,
                a10,
                a11,
                a12,
                a13,
                a20,
                a21,
                a22,
                a23,
                a30,
                a31,
                a32,
                a33,
            ),
    {
        Self::Mat4(
            a00,
            a01,
            a02,
            a03,
            a10,
            a11,
            a12,
            a13,
            a20,
            a21,
            a22,
            a23,
            a30,
            a31,
            a32,
            a33,
        )
    }

    /// The spatial dimension of the value: the component count of a vector,
    /// the order of a matrix, 1 for a scalar.
    pub open spec fn spec_dimension(self) -> nat {
        match self {
            LoadedGltfAccessorDatum::Scalar(..) => 1,
            LoadedGltfAccessorDatum::Vec2(..) => 2,
            LoadedGltfAccessorDatum::Vec3(..) => 3,
            LoadedGltfAccessorDatum::Vec4(..) => 4,
            LoadedGltfAccessorDatum::Mat2(..) => 2,
            LoadedGltfAccessorDatum::Mat3(..) => 3,
            LoadedGltfAccessorDatum::Mat4(..) => 4,
        }
    }

    /// The spatial dimension of the value: the component count of a vector,
    /// the order of a matrix, 1 for a scalar.
    pub fn get_dimension(&self) -> (n: usize)
        ensures
            n == self.spec_dimension(),
    {
        match self {
            LoadedGltfAccessorDatum::Scalar(..) => 1,
            LoadedGltfAccessorDatum::Vec2(..) => 2,
            LoadedGltfAccessorDatum::Vec3(..) => 3,
            LoadedGltfAccessorDatum::Vec4(..) => 4,
            LoadedGltfAccessorDatum::Mat2(..) => 2,
            LoadedGltfAccessorDatum::Mat3(..) => 3,
            LoadedGltfAccessorDatum::Mat4(..) => 4,
        }
    }
}

/// A buffer: a raw byte payload referenced by URI. `data` is `None` for the
/// sentinel entry of a buffer whose payload could not be resolved or whose
/// source kind is unsupported; the sentinel keeps table position equal to
/// document index.
pub struct LoadedGltfBuffer {
    pub index: usize,
    pub uri: String,
    pub data: Option<Vec<u8>>,
}

impl LoadedGltfBuffer {
    /// A buffer whose payload resolved to `data`.
    pub fn new(index: usize, uri: String, data: Vec<u8>) -> (r: Self)
        ensures
            r.index == index,
            r.uri == uri,
            r.data == Some(data),
    {
        Self { index, uri, data: Some(data) }
    }

    /// The sentinel for a buffer whose payload is unavailable.
    pub fn new_unresolved(index: usize, uri: String) -> (r: Self)
        ensures
            r.index == index,
            r.uri == uri,
            r.data is None,
    {
        Self { index, uri, data: None }
    }

    pub fn get_index(&self) -> (r: usize)
        ensures
            r == self.index,
    {
        self.index
    }

    pub fn get_uri(&self) -> (r: &String)
        ensures
            r == &self.uri,
    {
        &self.uri
    }

    /// The resolved payload, or `None` for a sentinel entry.
    pub fn get_data(&self) -> (r: &Option<Vec<u8>>)
        ensures
            r == &self.data,
    {
        &self.data
    }

    /// Whether the payload resolved.
    pub fn is_resolved(&self) -> (r: bool)
        ensures
            r == (self.data is Some),
    {
        self.data.is_some()
    }
}

/// A buffer view: a sub-region of one buffer, given by byte offset and
/// length, with an optional interleaving stride and an optional target hint.
pub struct LoadedGltfBufferView {
    pub index: usize,
    pub buffer_index: usize,
    pub data_offset: usize,
    pub data_length: usize,
    pub data_stride: Option<usize>,
    pub target: Option<BufferTarget>,
}

impl LoadedGltfBufferView {
    pub fn new(
        index: usize,
        buffer_index: usize,
        data_offset: usize,
        data_length: usize,
        data_stride: Option<usize>,
        target: Option<BufferTarget>,
    ) -> (r: Self)
        ensures
            r.index == index,
            r.buffer_index == buffer_index,
            r.data_offset == data_offset,
            r.data_length == data_length,
            r.data_stride == data_stride,
            r.target == target,
    {
        Self { index, buffer_index, data_offset, data_length, data_stride, target }
    }

    /// Transcribes a declared buffer view, which will sit at position `index`
    /// of its table.
    pub fn new_from_view(index: usize, decl: &BufferViewDecl) -> (r: Self)
        ensures
            r.index == index,
            r.buffer_index == decl.buffer_index,
            r.data_offset == decl.data_offset,
            r.data_length == decl.data_length,
            r.data_stride == decl.data_stride,
            r.target == decl.target,
    {
        Self::new(
            index,
            decl.buffer_index,
            decl.data_offset,
            decl.data_length,
            decl.data_stride,
            decl.target,
        )
    }

    pub fn get_index(&self) -> (r: usize)
        ensures
            r == self.index,
    {
        self.index
    }

    pub fn get_buffer_index(&self) -> (r: usize)
        ensures
            r == self.buffer_index,
    {
        self.buffer_index
    }

    pub fn get_data_offset(&self) -> (r: usize)
        ensures
            r == self.data_offset,
    {
        self.data_offset
    }

    pub fn get_data_length(&self) -> (r: usize)
        ensures
            r == self.data_length,
    {
        self.data_length
    }

    pub fn get_data_stride(&self) -> (r: Option<usize>)
        ensures
            r == self.data_stride,
    {
        self.data_stride
    }

    pub fn get_target(&self) -> (r: Option<BufferTarget>)
        ensures
            r == self.target,
    {
        self.target
    }

    /// The stride between consecutive elements; an absent stride reads as 0
    /// (tightly packed, single-element reads).
    pub open spec fn spec_stride(self) -> nat {
        match self.data_stride {
            Some(s) => s as nat,
            None => 0nat,
        }
    }

    /// First byte position of the element at `element` within the referenced
    /// buffer.
    pub open spec fn spec_read_start(self, element: nat) -> int {
        self.data_offset + element * self.spec_stride()
    }

    /// Whether reading the element at `element` stays within the referenced
    /// buffer: the buffer exists, its payload resolved, and the read's last
    /// byte lies inside the payload.
    pub open spec fn spec_read_ok(self, gltf: LoadedGltf, element: nat) -> bool {
        &&& (self.buffer_index as int) < gltf.buffers@.len()
        &&& gltf.buffers@[self.buffer_index as int].data is Some
        &&& self.spec_read_start(element) + self.data_length <= gltf.buffers@[self.buffer_index
            as int].data->0@.len()
    }

    /// The error a failed strided read reports: a dangling buffer index is a
    /// malformed document, an unresolved payload is a resolution failure, and
    /// anything else is a read past the buffer's end.
    pub open spec fn spec_read_err(self, gltf: LoadedGltf) -> GltfError {
        if self.buffer_index as int >= gltf.buffers@.len() {
            GltfError::DocumentMalformed
        } else if gltf.buffers@[self.buffer_index as int].data is None {
            GltfError::ResourceResolutionFailed
        } else {
            GltfError::OutOfRange
        }
    }

    /// The `data_length` bytes of the element at `element`.
    pub open spec fn spec_read_bytes(self, gltf: LoadedGltf, element: nat) -> Seq<u8> {
        gltf.buffers@[self.buffer_index as int].data->0@.subrange(
            self.spec_read_start(element),
            self.spec_read_start(element) + self.data_length,
        )
    }

    /// Reads the whole view region: the `data_length` bytes at the view's
    /// offset (element 0 of an unstrided read).
    pub fn load_data(&self, gltf: &LoadedGltf) -> (r: Result<Vec<u8>, GltfError>)
        ensures
            r is Ok <==> self.spec_read_ok(*gltf, 0),
            r is Ok ==> r->Ok_0@ == self.spec_read_bytes(*gltf, 0),
            r is Err ==> r->Err_0 == self.spec_read_err(*gltf),
    {
        self.load_data_strided(gltf, 0)
    }

    /// Copies the `data_length` bytes of the element at `stride_count` out of
    /// the referenced buffer: the read starts `stride_count` strides past the
    /// view's offset. Fails instead of ever reading past the buffer's end.
    pub fn load_data_strided(&self, gltf: &LoadedGltf, stride_count: usize) -> (r: Result<
        Vec<u8>,
        GltfError,
    >)
        ensures
            r is Ok <==> self.spec_read_ok(*gltf, stride_count as nat),
            r is Ok ==> r->Ok_0@ == self.spec_read_bytes(*gltf, stride_count as nat),
            r is Err ==> r->Err_0 == self.spec_read_err(*gltf),
    {
        if self.buffer_index >= gltf.buffers.len() {
            return Err(GltfError::DocumentMalformed);
        }
        let buffer = &gltf.buffers[self.buffer_index];
        match &buffer.data {
            None => Err(GltfError::ResourceResolutionFailed),
            Some(data) => {
                let buffer_len = data.len();
                let stride = match self.data_stride {
                    Some(s) => s,
                    None => 0,
                };
                let skipped = match stride_count.checked_mul(stride) {
                    Some(skipped) => skipped,
                    None => {
                        return Err(GltfError::OutOfRange);
                    },
                };
                let start = match self.data_offset.checked_add(skipped) {
                    Some(start) => start,
                    None => {
                        return Err(GltfError::OutOfRange);
                    },
                };
                let end = match start.checked_add(self.data_length) {
                    Some(end) => end,
                    None => {
                        return Err(GltfError::OutOfRange);
                    },
                };
                if end > buffer_len {
                    return Err(GltfError::OutOfRange);
                }
                let mut result: Vec<u8> = Vec::new();
                let mut k: usize = start;
                while k < end
                    invariant
                        start <= k <= end <= data@.len(),
                        result@ == data@.subrange(start as int, k as int),
                    decreases end - k,
                {
                    result.push(data[k]);
                    proof {
                        assert(result@ =~= data@.subrange(start as int, k + 1));
                    }
                    k = k + 1;
                }
                Ok(result)
            },
        }
    }
}

/// Reads of later elements start no earlier: the read position grows with
/// the element number.
pub proof fn lemma_read_start_monotone(view: LoadedGltfBufferView, i: nat, j: nat)
    requires
        i <= j,
    ensures
        view.spec_read_start(i) <= view.spec_read_start(j),
{
    lemma_mul_inequality(i as int, j as int, view.spec_stride() as int);
}

/// An accessor: a typed window onto one buffer view, decoding `comp_count`
/// elements of shape `dimensions`. `comp_size` is the element byte size the
/// document declares; `max_values` and `min_values` are optional bounding
/// arrays carried through opaquely as their document text.
pub struct LoadedGltfAccessor {
    pub index: usize,
    pub buffer_view_index: usize,
    pub comp_size: usize,
    pub comp_count: usize,
    pub max_values: Option<Vec<String>>,
    pub min_values: Option<Vec<String>>,
    pub dimensions: Dimensions,
}

/// The 32-bit word at component position `k` of an element's bytes, packed
/// big-endian from the four bytes starting at byte `4 * k`.
pub open spec fn spec_word_at(bytes: Seq<u8>, k: int) -> u32 {
    spec_u8_to_u32((bytes[4 * k], bytes[4 * k + 1], bytes[4 * k + 2], bytes[4 * k + 3]))
}

/// The typed value an element's bytes decode to: consecutive 32-bit words in
/// byte-stream order, assembled into the declared shape.
pub open spec fn spec_datum_from_bytes(dim: Dimensions, bytes: Seq<u8>) -> LoadedGltfAccessorDatum {
    match dim {
        Dimensions::Scalar => LoadedGltfAccessorDatum::Scalar(spec_word_at(bytes, 0)),
        Dimensions::Vec2 => LoadedGltfAccessorDatum::Vec2(
            spec_word_at(bytes, 0),
            spec_word_at(bytes, 1),
        ),
        Dimensions::Vec3 => LoadedGltfAccessorDatum::Vec3(
            spec_word_at(bytes, 0),
            spec_word_at(bytes, 1),
            spec_word_at(bytes, 2),
        ),
        Dimensions::Vec4 => LoadedGltfAccessorDatum::Vec4(
            spec_word_at(bytes, 0),
            spec_word_at(bytes, 1),
            spec_word_at(bytes, 2),
            spec_word_at(bytes, 3),
        ),
        Dimensions::Mat2 => LoadedGltfAccessorDatum::Mat2(
            spec_word_at(bytes, 0),
            spec_word_at(bytes, 1),
            spec_word_at(bytes, 2),
            spec_word_at(bytes, 3),
        ),
        Dimensions::Mat3 => LoadedGltfAccessorDatum::Mat3(
            spec_word_at(bytes, 0),
            spec_word_at(bytes, 1),
            spec_word_at(bytes, 2),
            spec_word_at(bytes, 3),
            spec_word_at(bytes, 4),
            spec_word_at(bytes, 5),
            spec_word_at(bytes, 6),
            spec_word_at(bytes, 7),
            spec_word_at(bytes, 8),
        ),
        Dimensions::Mat4 => LoadedGltfAccessorDatum::Mat4(
            spec_word_at(bytes, 0),
            spec_word_at(bytes, 1),
            spec_word_at(bytes, 2),
            spec_word_at(bytes, 3),
            spec_word_at(bytes, 4),
            spec_word_at(bytes, 5),
            spec_word_at(bytes, 6),
            spec_word_at(bytes, 7),
            spec_word_at(bytes, 8),
            spec_word_at(bytes, 9),
            spec_word_at(bytes, 10),
            spec_word_at(bytes, 11),
            spec_word_at(bytes, 12),
            spec_word_at(bytes, 13),
            spec_word_at(bytes, 14),
            spec_word_at(bytes, 15),
        ),
    }
}

/// The 32-bit word at component position `k` of an element's bytes.
fn word_at(content: &Vec<u8>, k: usize) -> (w: u32)
    requires
        4 * k + 4 <= content@.len(),
    ensures
        w == spec_word_at(content@, k as int),
{
    let len: usize = content.len();
    assert(4 * k + 4 <= len);
    let base: usize = 4 * k;
    u8_to_u32((content[base], content[base + 1], content[base + 2], content[base + 3]))
}

/// Assembles one element's bytes into the declared shape.
fn datum_from_bytes(dim: Dimensions, content: &Vec<u8>) -> (d: LoadedGltfAccessorDatum)
    requires
        content@.len() >= 4 * dim.spec_component_count(),
    ensures
        d == spec_datum_from_bytes(dim, content@),
{
    match dim {
        Dimensions::Scalar => LoadedGltfAccessorDatum::scalar_of(word_at(content, 0)),
        Dimensions::Vec2 => LoadedGltfAccessorDatum::vec2_of(
            word_at(content, 0),
            word_at(content, 1),
        ),
        Dimensions::Vec3 => LoadedGltfAccessorDatum::vec3_of(
            word_at(content, 0),
            word_at(content, 1),
            word_at(content, 2),
        ),
        Dimensions::Vec4 => LoadedGltfAccessorDatum::vec4_of(
            word_at(content, 0),
            word_at(content, 1),
            word_at(content, 2),
            word_at(content, 3),
        ),
        Dimensions::Mat2 => LoadedGltfAccessorDatum::mat2_of(
            word_at(content, 0),
            word_at(content, 1),
            word_at(content, 2),
            word_at(content, 3),
        ),
        Dimensions::Mat3 => LoadedGltfAccessorDatum::mat3_of(
            word_at(content, 0),
            word_at(content, 1),
            word_at(content, 2),
            word_at(content, 3),
            word_at(content, 4),
            word_at(content, 5),
            word_at(content, 6),
            word_at(content, 7),
            word_at(content, 8),
        ),
        Dimensions::Mat4 => LoadedGltfAccessorDatum::mat4_of(
            word_at(content, 0),
            word_at(content, 1),
            word_at(content, 2),
            word_at(content, 3),
            word_at(content, 4),
            word_at(content, 5),
            word_at(content, 6),
            word_at(content, 7),
            word_at(content, 8),
            word_at(content, 9),
            word_at(content, 10),
            word_at(content, 11),
            word_at(content, 12),
            word_at(content, 13),
            word_at(content, 14),
            word_at(content, 15),
        ),
    }
}

impl LoadedGltfAccessor {
    pub fn new(
        index: usize,
        buffer_view_index: usize,
        comp_size: usize,
        comp_count: usize,
        max_values: Option<Vec<String>>,
        min_values: Option<Vec<String>>,
        dimensions: Dimensions,
    ) -> (r: Self)
        ensures
            r.index == index,
            r.buffer_view_index == buffer_view_index,
            r.comp_size == comp_size,
            r.comp_count == comp_count,
            r.max_values == max_values,
            r.min_values == min_values,
            r.dimensions == dimensions,
    {
        Self { index, buffer_view_index, comp_size, comp_count, max_values, min_values, dimensions }
    }

    /// Transcribes a declared accessor, which will sit at position `index` of
    /// its table. `None` when the declaration names no buffer view: such an
    /// accessor cannot be loaded and the whole load treats it as fatal.
    pub fn new_from_accessor(index: usize, decl: AccessorDecl) -> (r: Option<Self>)
        ensures
            r is Some <==> decl.buffer_view_index is Some,
            r is Some ==> {
                let a = r->0;
                &&& a.index == index
                &&& a.buffer_view_index == decl.buffer_view_index->0
                &&& a.comp_size == decl.comp_size
                &&& a.comp_count == decl.comp_count
                &&& a.max_values == decl.max_values
                &&& a.min_values == decl.min_values
                &&& a.dimensions == decl.dimensions
            },
    {
        match decl.buffer_view_index {
            Some(buffer_view_index) => Some(
                Self::new(
                    index,
                    buffer_view_index,
                    decl.comp_size,
                    decl.comp_count,
                    decl.max_values,
                    decl.min_values,
                    decl.dimensions,
                ),
            ),
            None => None,
        }
    }

    pub fn get_index(&self) -> (r: usize)
        ensures
            r == self.index,
    {
        self.index
    }

    pub fn get_buffer_view_index(&self) -> (r: usize)
        ensures
            r == self.buffer_view_index,
    {
        self.buffer_view_index
    }

    pub fn get_comp_size(&self) -> (r: usize)
        ensures
            r == self.comp_size,
    {
        self.comp_size
    }

    pub fn get_comp_count(&self) -> (r: usize)
        ensures
            r == self.comp_count,
    {
        self.comp_count
    }

    pub fn get_max_values(&self) -> (r: &Option<Vec<String>>)
        ensures
            r == &self.max_values,
    {
        &self.max_values
    }

    pub fn get_min_values(&self) -> (r: &Option<Vec<String>>)
        ensures
            r == &self.min_values,
    {
        &self.min_values
    }

    pub fn get_dimensions(&self) -> (r: Dimensions)
        ensures
            r == self.dimensions,
    {
        self.dimensions
    }

    /// Byte width of one decoded element: four bytes per component.
    pub open spec fn spec_element_width(self) -> int {
        4 * self.dimensions.spec_component_count() as int
    }

    /// Whether decoding the whole accessor succeeds: its buffer view exists,
    /// and, when there is at least one element to read, the view's region is
    /// wide enough for one element and the last element's read stays within
    /// the resolved buffer (reads of earlier elements start no later).
    pub open spec fn spec_decode_ok(self, gltf: LoadedGltf) -> bool {
        &&& (self.buffer_view_index as int) < gltf.buffer_views@.len()
        &&& (self.comp_count > 0 ==> {
            let view = gltf.buffer_views@[self.buffer_view_index as int];
            &&& view.spec_read_ok(gltf, (self.comp_count - 1) as nat)
            &&& view.data_length >= self.spec_element_width()
        })
    }

    /// The error a failed decode reports: a dangling buffer-view or buffer
    /// index is a malformed document, an unresolved buffer payload is a
    /// resolution failure, and any failed bounds check is a read past the
    /// end.
    pub open spec fn spec_decode_err(self, gltf: LoadedGltf) -> GltfError {
        if self.buffer_view_index as int >= gltf.buffer_views@.len() {
            GltfError::DocumentMalformed
        } else {
            gltf.buffer_views@[self.buffer_view_index as int].spec_read_err(gltf)
        }
    }

    /// The typed value of the element at `i`.
    pub open spec fn spec_datum(self, gltf: LoadedGltf, i: nat) -> LoadedGltfAccessorDatum {
        spec_datum_from_bytes(
            self.dimensions,
            gltf.buffer_views@[self.buffer_view_index as int].spec_read_bytes(gltf, i),
        )
    }

    /// The decoded sequence: one typed value per element, in element order.
    pub open spec fn spec_accessor_data(self, gltf: LoadedGltf) -> Seq<LoadedGltfAccessorDatum> {
        Seq::new(self.comp_count as nat, |i: int| self.spec_datum(gltf, i as nat))
    }

    /// Decodes all elements of the accessor against the graph: for each
    /// element the strided region reader fetches the element's bytes, and the
    /// bytes are reinterpreted as consecutive 32-bit words assembled into the
    /// declared shape. Nothing is cached: every call re-reads the buffer, and
    /// the result is a function of the graph and the accessor alone.
    pub fn load_data(&self, gltf: &LoadedGltf) -> (r: Result<
        Vec<LoadedGltfAccessorDatum>,
        GltfError,
    >)
        ensures
            r is Ok <==> self.spec_decode_ok(*gltf),
            r is Ok ==> r->Ok_0@ == self.spec_accessor_data(*gltf),
            r is Err ==> r->Err_0 == self.spec_decode_err(*gltf),
    {
        if self.buffer_view_index >= gltf.buffer_views.len() {
            return Err(GltfError::DocumentMalformed);
        }
        let width = 4 * self.dimensions.component_count();
        let mut result: Vec<LoadedGltfAccessorDatum> = Vec::new();
        let mut i: usize = 0;
        while i < self.comp_count
            invariant
                i <= self.comp_count,
                (self.buffer_view_index as int) < gltf.buffer_views@.len(),
                width == self.spec_element_width(),
                result@.len() == i,
                forall|j: int|
                    0 <= j < i ==> gltf.buffer_views@[self.buffer_view_index as int].spec_read_ok(
                        *gltf,
                        #[trigger] (j as nat),
                    ),
                i > 0 ==> gltf.buffer_views@[self.buffer_view_index as int].data_length >= width,
                forall|j: int| 0 <= j < i ==> result@[j] == self.spec_datum(*gltf, j as nat),
            decreases self.comp_count - i,
        {
            let view = &gltf.buffer_views[self.buffer_view_index];
            match view.load_data_strided(gltf, i) {
                Err(e) => {
                    proof {
                        if self.spec_decode_ok(*gltf) {
                            lemma_read_start_monotone(
                                *view,
                                i as nat,
                                (self.comp_count - 1) as nat,
                            );
                        }
                    }
                    return Err(e);
                },
                Ok(content) => {
                    if content.len() < width {
                        return Err(GltfError::OutOfRange);
                    }
                    let datum = datum_from_bytes(self.dimensions, &content);
                    result.push(datum);
                    i = i + 1;
                },
            }
        }
        proof {
            assert(result@ =~= self.spec_accessor_data(*gltf));
        }
        Ok(result)
    }
}

/// Decoding is idempotent: the decoder's contract pins a successful result's
/// view to `spec_accessor_data`, a function of the graph and the accessor
/// alone, so any two decodes of the same accessor against the same graph,
/// with no mutation in between, yield element-wise equal sequences.
pub proof fn lemma_accessor_decode_idempotent(
    gltf: LoadedGltf,
    accessor: LoadedGltfAccessor,
    first: Vec<LoadedGltfAccessorDatum>,
    second: Vec<LoadedGltfAccessorDatum>,
)
    requires
        first@ == accessor.spec_accessor_data(gltf),
        second@ == accessor.spec_accessor_data(gltf),
    ensures
        first@ == second@,
{
}

/// An image: a raw byte payload referenced by URI, resolved the same way as a
/// buffer and additionally retrievable by URI. `data` is `None` for the
/// sentinel entry of an image whose payload could not be resolved.
pub struct LoadedGltfImage {
    pub index: usize,
    pub uri: String,
    pub data: Option<Vec<u8>>,
}

impl LoadedGltfImage {
    /// An image whose payload resolved to `data`.
    pub fn new(index: usize, uri: String, data: Vec<u8>) -> (r: Self)
        ensures
            r.index == index,
            r.uri == uri,
            r.data == Some(data),
    {
        Self { index, uri, data: Some(data) }
    }

    /// The sentinel for an image whose payload is unavailable.
    pub fn new_unresolved(index: usize, uri: String) -> (r: Self)
        ensures
            r.index == index,
            r.uri == uri,
            r.data is None,
    {
        Self { index, uri, data: None }
    }

    pub fn get_index(&self) -> (r: usize)
        ensures
            r == self.index,
    {
        self.index
    }

    pub fn get_uri(&self) -> (r: &String)
        ensures
            r == &self.uri,
    {
        &self.uri
    }

    /// The resolved payload, or `None` for a sentinel entry.
    pub fn get_data(&self) -> (r: &Option<Vec<u8>>)
        ensures
            r == &self.data,
    {
        &self.data
    }

    /// Whether the payload resolved.
    pub fn is_resolved(&self) -> (r: bool)
        ensures
            r == (self.data is Some),
    {
        self.data.is_some()
    }
}

/// A sampler: filtering and wrapping configuration for textures. `index` is
/// `None` for a document's implicit default sampler.
pub struct LoadedGltfSampler {
    pub index: Option<usize>,
    pub mag_filter: Option<MagFilter>,
    pub min_filter: Option<MinFilter>,
    pub name: Option<String>,
    pub wrap_s: WrappingMode,
    pub wrap_t: WrappingMode,
}

impl LoadedGltfSampler {
    pub fn new(
        index: Option<usize>,
        mag_filter: Option<MagFilter>,
        min_filter: Option<MinFilter>,
        name: Option<String>,
        wrap_s: WrappingMode,
        wrap_t: WrappingMode,
    ) -> (r: Self)
        ensures
            r.index == index,
            r.mag_filter == mag_filter,
            r.min_filter == min_filter,
            r.name == name,
            r.wrap_s == wrap_s,
            r.wrap_t == wrap_t,
    {
        Self { index, mag_filter, min_filter, name, wrap_s, wrap_t }
    }

    /// Transcribes a declared sampler, which will sit at position `index` of
    /// its table.
    pub fn new_from_sampler(index: usize, decl: SamplerDecl) -> (r: Self)
        ensures
            r.index == Some(index),
            r.mag_filter == decl.mag_filter,
            r.min_filter == decl.min_filter,
            r.name == decl.name,
            r.wrap_s == decl.wrap_s,
            r.wrap_t == decl.wrap_t,
    {
        Self::new(
            Some(index),
            decl.mag_filter,
            decl.min_filter,
            decl.name,
            decl.wrap_s,
            decl.wrap_t,
        )
    }

    /// `None` if the sampler is the document's implicit default one.
    pub fn get_index(&self) -> (r: Option<usize>)
        ensures
            r == self.index,
    {
        self.index
    }

    pub fn get_mag_filter(&self) -> (r: Option<MagFilter>)
        ensures
            r == self.mag_filter,
    {
        self.mag_filter
    }

    /// The magnification filter as its graphics-API constant, when one is
    /// set.
    pub fn get_mag_filter_gl(&self) -> (r: Option<u32>)
        ensures
            r is Some <==> self.mag_filter is Some,
            r is Some ==> r->0 == spec_mag_filter_gl(self.mag_filter->0),
    {
        match self.mag_filter {
            Some(filter) => Some(mag_filter_to_gl_value(filter)),
            None => None,
        }
    }

    pub fn get_min_filter(&self) -> (r: Option<MinFilter>)
        ensures
            r == self.min_filter,
    {
        self.min_filter
    }

    /// The minification filter as its graphics-API constant, when one is set.
    pub fn get_min_filter_gl(&self) -> (r: Option<u32>)
        ensures
            r is Some <==> self.min_filter is Some,
            r is Some ==> r->0 == spec_min_filter_gl(self.min_filter->0),
    {
        match self.min_filter {
            Some(filter) => Some(min_filter_to_gl_value(filter)),
            None => None,
        }
    }

    pub fn get_name(&self) -> (r: Option<String>)
        ensures
            r is Some <==> self.name is Some,
            r is Some ==> r->0@ == self.name->0@,
    {
        match &self.name {
            Some(name) => Some(name.clone()),
            None => None,
        }
    }

    pub fn get_wrap_s(&self) -> (r: WrappingMode)
        ensures
            r == self.wrap_s,
    {
        self.wrap_s
    }

    /// The S-axis wrapping mode as its graphics-API constant.
    pub fn get_wrap_s_gl(&self) -> (r: u32)
        ensures
            r == spec_wrapping_mode_gl(self.wrap_s),
    {
        wrapping_mode_to_gl_value(self.wrap_s)
    }

    pub fn get_wrap_t(&self) -> (r: WrappingMode)
        ensures
            r == self.wrap_t,
    {
        self.wrap_t
    }

    /// The T-axis wrapping mode as its graphics-API constant.
    pub fn get_wrap_t_gl(&self) -> (r: u32)
        ensures
            r == spec_wrapping_mode_gl(self.wrap_t),
    {
        wrapping_mode_to_gl_value(self.wrap_t)
    }
}

/// A texture: one image (by source index) paired with one sampler (by
/// sampler index).
pub struct LoadedGltfTexture {
    pub index: usize,
    pub source_index: usize,
    pub sampler_index: usize,
}

impl LoadedGltfTexture {
    pub fn new(index: usize, source_index: usize, sampler_index: usize) -> (r: Self)
        ensures
            r.index == index,
            r.source_index == source_index,
            r.sampler_index == sampler_index,
    {
        Self { index, source_index, sampler_index }
    }

    /// Transcribes a declared texture, which will sit at position `index` of
    /// its table.
    pub fn new_from_texture(index: usize, decl: &TextureDecl) -> (r: Self)
        ensures
            r.index == index,
            r.source_index == decl.source_index,
            r.sampler_index == decl.sampler_index,
    {
        Self::new(index, decl.source_index, decl.sampler_index)
    }

    pub fn get_index(&self) -> (r: usize)
        ensures
            r == self.index,
    {
        self.index
    }

    pub fn get_source_index(&self) -> (r: usize)
        ensures
            r == self.source_index,
    {
        self.source_index
    }

    pub fn get_sampler_index(&self) -> (r: usize)
        ensures
            r == self.sampler_index,
    {
        self.sampler_index
    }
}

/// A material: the metallic-roughness bundle plus optional normal, occlusion
/// and emissive texture references and the emissive color factor. `index` is
/// `None` for a document's implicit default material.
pub struct LoadedGltfMaterial {
    pub index: Option<usize>,
    pub pbr_metallic_roughness: PbrMetallicRoughnessInfo,
    pub normal_texture: Option<NormalTextureInfo>,
    pub occlusion_texture: Option<OcclusionTextureInfo>,
    pub emissive_texture: Option<EmissiveTextureInfo>,
    pub emissive_factor: EmissiveFactorInfo,
}

impl LoadedGltfMaterial {
    pub fn new(
        index: Option<usize>,
        pbr_metallic_roughness: PbrMetallicRoughnessInfo,
        normal_texture: Option<NormalTextureInfo>,
        occlusion_texture: Option<OcclusionTextureInfo>,
        emissive_texture: Option<EmissiveTextureInfo>,
        emissive_factor: EmissiveFactorInfo,
    ) -> (r: Self)
        ensures
            r.index == index,
            r.pbr_metallic_roughness == pbr_metallic_roughness,
            r.normal_texture == normal_texture,
            r.occlusion_texture == occlusion_texture,
            r.emissive_texture == emissive_texture,
            r.emissive_factor == emissive_factor,
    {
        Self {
            index,
            pbr_metallic_roughness,
            normal_texture,
            occlusion_texture,
            emissive_texture,
            emissive_factor,
        }
    }

    /// Transcribes a declared material, which will sit at position `index` of
    /// its table.
    pub fn new_from_material(index: usize, decl: &MaterialDecl) -> (r: Self)
        ensures
            r.index == Some(index),
            r.pbr_metallic_roughness == decl.pbr_metallic_roughness,
            r.normal_texture == decl.normal_texture,
            r.occlusion_texture == decl.occlusion_texture,
            r.emissive_texture == decl.emissive_texture,
            r.emissive_factor == decl.emissive_factor,
    {
        Self::new(
            Some(index),
            decl.pbr_metallic_roughness,
            decl.normal_texture,
            decl.occlusion_texture,
            decl.emissive_texture,
            decl.emissive_factor,
        )
    }

    /// `None` if the material is the document's implicit default one.
    pub fn get_index(&self) -> (r: Option<usize>)
        ensures
            r == self.index,
    {
        self.index
    }

    pub fn get_pbr_metallic_roughness(&self) -> (r: &PbrMetallicRoughnessInfo)
        ensures
            r == &self.pbr_metallic_roughness,
    {
        &self.pbr_metallic_roughness
    }

    pub fn get_normal_texture(&self) -> (r: &Option<NormalTextureInfo>)
        ensures
            r == &self.normal_texture,
    {
        &self.normal_texture
    }

    pub fn get_occlusion_texture(&self) -> (r: &Option<OcclusionTextureInfo>)
        ensures
            r == &self.occlusion_texture,
    {
        &self.occlusion_texture
    }

    pub fn get_emissive_texture(&self) -> (r: &Option<EmissiveTextureInfo>)
        ensures
            r == &self.emissive_texture,
    {
        &self.emissive_texture
    }

    pub fn get_emissive_factor(&self) -> (r: EmissiveFactorInfo)
        ensures
            r == self.emissive_factor,
    {
        self.emissive_factor
    }
}

/// A mesh: its primitives and its morph-target weights (weights as binary32
/// bit patterns; empty when the document defines none).
pub struct LoadedGltfMesh {
    pub index: usize,
    pub primitives: Vec<PrimitiveInfo>,
    pub weights: Vec<u32>,
}

impl LoadedGltfMesh {
    pub fn new(index: usize, primitives: Vec<PrimitiveInfo>, weights: Vec<u32>) -> (r: Self)
        ensures
            r.index == index,
            r.primitives == primitives,
            r.weights == weights,
    {
        Self { index, primitives, weights }
    }

    /// A mesh with no primitives and no weights.
    pub fn new_empty(index: usize) -> (r: Self)
        ensures
            r.index == index,
            r.primitives@.len() == 0,
            r.weights@.len() == 0,
    {
        Self::new(index, Vec::new(), Vec::new())
    }

    /// Transcribes a declared mesh, which will sit at position `index` of its
    /// table.
    pub fn new_from_mesh(index: usize, decl: MeshDecl) -> (r: Self)
        ensures
            r.index == index,
            r.primitives == decl.primitives,
            r.weights == decl.weights,
    {
        Self::new(index, decl.primitives, decl.weights)
    }

    pub fn get_index(&self) -> (r: usize)
        ensures
            r == self.index,
    {
        self.index
    }

    pub fn get_primitives(&self) -> (r: &Vec<PrimitiveInfo>)
        ensures
            r == &self.primitives,
    {
        &self.primitives
    }

    pub fn get_weights(&self) -> (r: &Vec<u32>)
        ensures
            r == &self.weights,
    {
        &self.weights
    }
}

/// The asset graph: the owner of all decoded tables, one per entity kind,
/// each ordered by document index.
pub struct LoadedGltf {
    pub buffers: Vec<LoadedGltfBuffer>,
    pub buffer_views: Vec<LoadedGltfBufferView>,
    pub accessors: Vec<LoadedGltfAccessor>,
    pub images: Vec<LoadedGltfImage>,
    pub samplers: Vec<LoadedGltfSampler>,
    pub textures: Vec<LoadedGltfTexture>,
    pub materials: Vec<LoadedGltfMaterial>,
    pub meshes: Vec<LoadedGltfMesh>,
}

impl LoadedGltf {
    /// Cross-reference validity: every buffer view names an existing buffer,
    /// every accessor an existing buffer view, and every texture an existing
    /// image and sampler.
    pub open spec fn wf(self) -> bool {
        &&& forall|i: int|
            0 <= i < self.buffer_views@.len() ==> (#[trigger] self.buffer_views@[i]).buffer_index
                < self.buffers@.len()
        &&& forall|i: int|
            0 <= i < self.accessors@.len() ==> (#[trigger] self.accessors@[i]).buffer_view_index
                < self.buffer_views@.len()
        &&& forall|i: int|
            0 <= i < self.textures@.len() ==> (#[trigger] self.textures@[i]).source_index
                < self.images@.len() && self.textures@[i].sampler_index < self.samplers@.len()
    }

    /// An empty graph.
    pub fn new() -> (r: Self)
        ensures
            r.buffers@.len() == 0,
            r.buffer_views@.len() == 0,
            r.accessors@.len() == 0,
            r.images@.len() == 0,
            r.samplers@.len() == 0,
            r.textures@.len() == 0,
            r.materials@.len() == 0,
            r.meshes@.len() == 0,
    {
        Self {
            buffers: Vec::new(),
            buffer_views: Vec::new(),
            accessors: Vec::new(),
            images: Vec::new(),
            samplers: Vec::new(),
            textures: Vec::new(),
            materials: Vec::new(),
            meshes: Vec::new(),
        }
    }

    pub fn get_buffers(&self) -> (r: &Vec<LoadedGltfBuffer>)
        ensures
            r == &self.buffers,
    {
        &self.buffers
    }

    pub fn get_buffer_views(&self) -> (r: &Vec<LoadedGltfBufferView>)
        ensures
            r == &self.buffer_views,
    {
        &self.buffer_views
    }

    pub fn get_accessors(&self) -> (r: &Vec<LoadedGltfAccessor>)
        ensures
            r == &self.accessors,
    {
        &self.accessors
    }

    pub fn get_images(&self) -> (r: &Vec<LoadedGltfImage>)
        ensures
            r == &self.images,
    {
        &self.images
    }

    pub fn get_samplers(&self) -> (r: &Vec<LoadedGltfSampler>)
        ensures
            r == &self.samplers,
    {
        &self.samplers
    }

    pub fn get_textures(&self) -> (r: &Vec<LoadedGltfTexture>)
        ensures
            r == &self.textures,
    {
        &self.textures
    }

    pub fn get_materials(&self) -> (r: &Vec<LoadedGltfMaterial>)
        ensures
            r == &self.materials,
    {
        &self.materials
    }

    pub fn get_meshes(&self) -> (r: &Vec<LoadedGltfMesh>)
        ensures
            r == &self.meshes,
    {
        &self.meshes
    }

    /// Whether the image at position `j` answers a lookup for `uri`: its URI
    /// matches and its payload resolved.
    pub open spec fn spec_image_uri_match(self, j: int, uri: Seq<char>) -> bool {
        &&& self.images@[j].uri@ == uri
        &&& self.images@[j].data is Some
    }

    /// Whether the buffer at position `j` answers a lookup for `uri`.
    pub open spec fn spec_buffer_uri_match(self, j: int, uri: Seq<char>) -> bool {
        &&& self.buffers@[j].uri@ == uri
        &&& self.buffers@[j].data is Some
    }

    /// The resolved payload of the first image whose URI equals `uri`, or
    /// `None` when no resolved image carries that URI.
    pub fn get_image_data_by_uri(&self, uri: &String) -> (r: Option<&Vec<u8>>)
        ensures
            r is Some <==> exists|j: int|
                0 <= j < self.images@.len() && self.spec_image_uri_match(j, uri@),
            r is Some ==> exists|j: int|
                {
                    &&& 0 <= j < self.images@.len()
                    &&& self.spec_image_uri_match(j, uri@)
                    &&& forall|k: int| 0 <= k < j ==> !self.spec_image_uri_match(k, uri@)
                    &&& *r->0 == self.images@[j].data->0
                },
    {
        let mut j: usize = 0;
        while j < self.images.len()
            invariant
                j <= self.images@.len(),
                forall|k: int| 0 <= k < j ==> !self.spec_image_uri_match(k, uri@),
            decreases self.images@.len() - j,
        {
            let image = &self.images[j];
            if image.uri.eq(uri) {
                match &image.data {
                    Some(data) => {
                        proof {
                            assert(self.spec_image_uri_match(j as int, uri@));
                        }
                        return Some(data);
                    },
                    None => {},
                }
            }
            proof {
                assert(!self.spec_image_uri_match(j as int, uri@));
            }
            j = j + 1;
        }
        None
    }

    /// The resolved payload of the first buffer whose URI equals `uri`, or
    /// `None` when no resolved buffer carries that URI.
    pub fn get_buffer_data_by_uri(&self, uri: &String) -> (r: Option<&Vec<u8>>)
        ensures
            r is Some <==> exists|j: int|
                0 <= j < self.buffers@.len() && self.spec_buffer_uri_match(j, uri@),
            r is Some ==> exists|j: int|
                {
                    &&& 0 <= j < self.buffers@.len()
                    &&& self.spec_buffer_uri_match(j, uri@)
                    &&& forall|k: int| 0 <= k < j ==> !self.spec_buffer_uri_match(k, uri@)
                    &&& *r->0 == self.buffers@[j].data->0
                },
    {
        let mut j: usize = 0;
        while j < self.buffers.len()
            invariant
                j <= self.buffers@.len(),
                forall|k: int| 0 <= k < j ==> !self.spec_buffer_uri_match(k, uri@),
            decreases self.buffers@.len() - j,
        {
            let buffer = &self.buffers[j];
            if buffer.uri.eq(uri) {
                match &buffer.data {
                    Some(data) => {
                        proof {
                            assert(self.spec_buffer_uri_match(j as int, uri@));
                        }
                        return Some(data);
                    },
                    None => {},
                }
            }
            proof {
                assert(!self.spec_buffer_uri_match(j as int, uri@));
            }
            j = j + 1;
        }
        None
    }

    /// The previously resolved payload for `uri` in the table `kind` names,
    /// or `None` when no resolved entry of that kind carries the URI.
    pub fn get_resource_bytes_by_uri(&self, kind: ResourceKind, uri: &String) -> (r: Option<
        &Vec<u8>,
    >)
        ensures
            kind == ResourceKind::Buffer ==> (r is Some <==> exists|j: int|
                0 <= j < self.buffers@.len() && self.spec_buffer_uri_match(j, uri@)),
            kind == ResourceKind::Buffer && r is Some ==> exists|j: int|
                {
                    &&& 0 <= j < self.buffers@.len()
                    &&& self.spec_buffer_uri_match(j, uri@)
                    &&& forall|k: int| 0 <= k < j ==> !self.spec_buffer_uri_match(k, uri@)
                    &&& *r->0 == self.buffers@[j].data->0
                },
            kind == ResourceKind::Image ==> (r is Some <==> exists|j: int|
                0 <= j < self.images@.len() && self.spec_image_uri_match(j, uri@)),
            kind == ResourceKind::Image && r is Some ==> exists|j: int|
                {
                    &&& 0 <= j < self.images@.len()
                    &&& self.spec_image_uri_match(j, uri@)
                    &&& forall|k: int| 0 <= k < j ==> !self.spec_image_uri_match(k, uri@)
                    &&& *r->0 == self.images@[j].data->0
                },
    {
        match kind {
            ResourceKind::Buffer => self.get_buffer_data_by_uri(uri),
            ResourceKind::Image => self.get_image_data_by_uri(uri),
        }
    }
}

} // verus!
