use vstd::prelude::*;

verus! {

/// Everything that can go wrong while loading a model.
///
/// A failure of any sub-task aborts the whole load: no partial model is
/// ever returned.
#[derive(Clone, Copy, Debug, PartialEq, Eq, Structural)]
pub enum LoadError {
    /// The asset or material-library file is missing or malformed, the
    /// asset path has no containing directory, or a mesh references a
    /// material slot that does not exist.
    AssetParseError,
    /// A texture file is unreadable or undecodable.
    TextureLoadError,
    /// The flat geometry arrays of a mesh are mutually inconsistent.
    MalformedMeshData,
}

} // verus!
