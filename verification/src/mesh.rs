//! Mesh primitive descriptions: draw mode, attribute bindings, morph targets
//! and the optional material reference, all linked by accessor and material
//! indices.

use vstd::prelude::*;

verus! {

/// Draw mode of a primitive.
#[derive(Clone, Copy, Debug, PartialEq, Eq, Structural)]
pub enum PrimitiveMode {
    Points,
    Lines,
    LineLoop,
    LineStrip,
    Triangles,
    TriangleStrip,
    TriangleFan,
}

/// Semantic of a vertex attribute: what the bound accessor's data means.
#[derive(Clone, Copy, Debug, PartialEq, Eq, Structural)]
pub enum AttributeSemantic {
    Positions,
    Normals,
    Tangents,
    Colors(u32),
    TexCoords(u32),
    Joints(u32),
    Weights(u32),
}

/// Binding of one vertex attribute to the accessor that holds its data.
#[derive(Clone, Copy, Debug, PartialEq, Eq, Structural)]
pub struct AttributeInfo {
    pub type_semantic: AttributeSemantic,
    pub accessor_index: usize,
}

/// One morph target of a primitive: optional accessor references for the
/// displaced positions, normals and tangents. A `None` entry means the
/// document defines no data for that slot.
#[derive(Clone, Copy, Debug, PartialEq, Eq, Structural)]
pub struct MorphTargetInfo {
    pub positions: Option<usize>,
    pub normals: Option<usize>,
    pub tangents: Option<usize>,
}

/// One primitive of a mesh: a draw mode, an optional index-accessor
/// reference, attribute bindings, morph targets and an optional material
/// reference. `indices` and `material` are `None` when the document does not
/// define them.
pub struct PrimitiveInfo {
    pub index: usize,
    pub mode: PrimitiveMode,
    pub indices: Option<usize>,
    pub attributes: Vec<AttributeInfo>,
    pub morph_targets: Vec<MorphTargetInfo>,
    pub material: Option<usize>,
}

impl AttributeInfo {
    pub fn new(type_semantic: AttributeSemantic, accessor_index: usize) -> (r: Self)
        ensures
            r.type_semantic == type_semantic,
            r.accessor_index == accessor_index,
    {
        Self { type_semantic, accessor_index }
    }

    pub fn type_semantic(&self) -> (r: &AttributeSemantic)
        ensures
            r == &self.type_semantic,
    {
        &self.type_semantic
    }

    pub fn accessor_index(&self) -> (r: usize)
        ensures
            r == self.accessor_index,
    {
        self.accessor_index
    }
}

impl MorphTargetInfo {
    pub fn new(positions: Option<usize>, normals: Option<usize>, tangents: Option<usize>) -> (r:
        Self)
        ensures
            r.positions == positions,
            r.normals == normals,
            r.tangents == tangents,
    {
        Self { positions, normals, tangents }
    }

    /// A morph target with no data in any slot.
    pub fn new_empty() -> (r: Self)
        ensures
            r.positions is None,
            r.normals is None,
            r.tangents is None,
    {
        Self::new(None, None, None)
    }

    pub fn positions(&self) -> (r: Option<usize>)
        ensures
            r == self.positions,
    {
        self.positions
    }

    pub fn set_positions(&mut self, positions: Option<usize>)
        ensures
            final(self).positions == positions,
            final(self).normals == old(self).normals,
            final(self).tangents == old(self).tangents,
    {
        self.positions = positions
    }

    pub fn normals(&self) -> (r: Option<usize>)
        ensures
            r == self.normals,
    {
        self.normals
    }

    pub fn set_normals(&mut self, normals: Option<usize>)
        ensures
            final(self).normals == normals,
            final(self).positions == old(self).positions,
            final(self).tangents == old(self).tangents,
    {
        self.normals = normals
    }

    pub fn tangents(&self) -> (r: Option<usize>)
        ensures
            r == self.tangents,
    {
        self.tangents
    }

    pub fn set_tangents(&mut self, tangents: Option<usize>)
        ensures
            final(self).tangents == tangents,
            final(self).positions == old(self).positions,
            final(self).normals == old(self).normals,
    {
        self.tangents = tangents
    }
}

impl PrimitiveInfo {
    pub fn new(
        index: usize,
        mode: PrimitiveMode,
        indices: Option<usize>,
        attributes: Vec<AttributeInfo>,
        morph_targets: Vec<MorphTargetInfo>,
        material: Option<usize>,
    ) -> (r: Self)
        ensures
            r.index == index,
            r.mode == mode,
            r.indices == indices,
            r.attributes == attributes,
            r.morph_targets == morph_targets,
            r.material == material,
    {
        Self { index, mode, indices, attributes, morph_targets, material }
    }

    pub fn index(&self) -> (r: usize)
        ensures
            r == self.index,
    {
        self.index
    }

    pub fn mode(&self) -> (r: PrimitiveMode)
        ensures
            r == self.mode,
    {
        self.mode
    }

    pub fn indices(&self) -> (r: Option<usize>)
        ensures
            r == self.indices,
    {
        self.indices
    }

    pub fn attributes(&self) -> (r: &Vec<AttributeInfo>)
        ensures
            r == &self.attributes,
    {
        &self.attributes
    }

    pub fn morph_targets(&self) -> (r: &Vec<MorphTargetInfo>)
        ensures
            r == &self.morph_targets,
    {
        &self.morph_targets
    }

    pub fn material(&self) -> (r: Option<usize>)
        ensures
            r == self.material,
    {
        self.material
    }
}

} // verus!
