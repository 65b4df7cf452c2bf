//! Configuration errors: faults in how the scene is set up. They are fatal at
//! startup and never retried.

use vstd::prelude::*;

verus! {

/// Why a piece of the scene cannot be set up.
#[derive(Clone, Copy, Debug, PartialEq, Eq, Structural)]
pub enum ConfigError {
    /// The camera's projection has no frustum corners to fit the playbox to.
    NotPerspective,
    /// The mesh to turn inside out carries no normals.
    MissingNormals,
    /// The mesh is a point list, which has no winding to invert.
    WrongTopology,
    /// The mesh's indices do not come in whole primitives.
    AbruptIndicesEnd,
}

} // verus!
