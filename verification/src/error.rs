//! The ways in which loading and drawing can fail.

use vstd::prelude::*;

verus! {

/// Why a geometry source could not be turned into a model. Nothing of such a
/// source is installed in the store.
#[derive(Clone, Copy, Debug, PartialEq, Eq, Structural)]
pub enum AssetLoadError {
    /// The source holds a texture or normal index that counts back from the
    /// end (`/-`), or a run of digits too long for an index: the parser
    /// cannot be given such a source.
    Unsupported,
    /// The source is not well-formed interchange geometry.
    Parse,
    /// The source parsed, but a submesh lacks texture coordinates for some of
    /// its vertices, its index list is not a list of triangles, or a count
    /// does not fit in 32 bits.
    InvalidGeometry,
}

/// Why a draw request or a step of the frame was refused.
#[derive(Clone, Copy, Debug, PartialEq, Eq, Structural)]
pub enum RenderError {
    /// The request names a mesh or model that the store does not hold.
    ResourceNotFound,
    /// A model was requested with another number of textures than it has
    /// submeshes.
    TextureCountMismatch,
    /// No target could be had for the frame: the frame is skipped.
    SurfaceAcquisition,
    /// A step of the frame was called in a state other than its own.
    StateSequence,
}

/// Whether `outcome` is the failure `reason`.
pub open spec fn load_failed<T>(outcome: Result<T, AssetLoadError>, reason: AssetLoadError) -> bool {
    outcome matches Err(e) && e == reason
}

/// Whether `outcome` is the refusal `reason`.
pub open spec fn refused<T>(outcome: Result<T, RenderError>, reason: RenderError) -> bool {
    outcome matches Err(e) && e == reason
}

} // verus!
