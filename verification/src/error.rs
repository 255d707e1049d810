//! Error taxonomy of the loader.

use vstd::prelude::*;

verus! {

/// What can go wrong while loading an asset or decoding its data.
///
/// `DocumentMalformed` is fatal: the document names an entity that does not
/// exist (a dangling index or a missing reference). `ResourceResolutionFailed`
/// marks a single buffer or image whose payload the host could not fetch.
/// `OutOfRange` marks a strided read that would pass the end of the owning
/// buffer. `UnsupportedSourceKind` marks a buffer or image embedded inline in
/// the document, which this loader does not support.
#[derive(Clone, Copy, Debug, PartialEq, Eq, Structural)]
pub enum GltfError {
    DocumentMalformed,
    ResourceResolutionFailed,
    OutOfRange,
    UnsupportedSourceKind,
}

} // verus!
