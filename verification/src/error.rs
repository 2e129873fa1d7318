//! Error taxonomy of the rendering core.

use vstd::prelude::*;

verus! {

/// A per-vertex or per-instance attribute that a shader program can declare.
#[derive(Clone, Copy, Debug, PartialEq, Eq, Structural)]
pub enum AttributeName {
    /// The per-vertex mesh position.
    Position,
    /// The per-vertex mesh normal.
    Normal,
    /// The per-vertex texture coordinates.
    UvCoordinates,
    /// The per-instance particle start position.
    StartPosition,
    /// The per-instance particle start velocity.
    StartVelocity,
}

impl AttributeName {
    /// The attribute's name as it appears in error messages.
    pub fn label(&self) -> (r: &'static str)
        ensures
            self is UvCoordinates ==> r@ == "uv coordinate"@,
            self is Normal ==> r@ == "normal"@,
            self is Position ==> r@ == "position"@,
    {
        match self {
            AttributeName::Position => "position",
            AttributeName::Normal => "normal",
            AttributeName::UvCoordinates => "uv coordinate",
            AttributeName::StartPosition => "start_position",
            AttributeName::StartVelocity => "start_velocity",
        }
    }
}

/// A uniform value slot that a shader program can declare.
#[derive(Clone, Copy, Debug, PartialEq, Eq, Structural)]
pub enum UniformName {
    /// The camera view matrix.
    View,
    /// The camera projection matrix.
    Projection,
    /// The particle time scalar.
    Time,
    /// The particle acceleration vector.
    Acceleration,
    /// The local-to-world transformation matrix.
    ModelMatrix,
    /// The normal transformation matrix.
    NormalMatrix,
}

/// An inconsistency found in CPU-side mesh data.
#[derive(Clone, Copy, Debug, PartialEq, Eq, Structural)]
pub enum MeshError {
    /// The mesh has no positions at all.
    NoPositions,
    /// The normal count differs from the position count.
    NormalCountMismatch {
        /// Number of positions in the mesh.
        positions: usize,
        /// Number of normals in the mesh.
        normals: usize,
    },
    /// The texture-coordinate count differs from the position count.
    UvCountMismatch {
        /// Number of positions in the mesh.
        positions: usize,
        /// Number of texture coordinates in the mesh.
        uvs: usize,
    },
    /// An index points past the last position.
    IndexOutOfBounds {
        /// The offending index value.
        index: u32,
        /// Number of positions in the mesh.
        positions: usize,
    },
}

/// An error surfaced by the rendering core.  Construction-time errors abort
/// the operation all-or-nothing; per-frame render errors leave buffer state
/// intact for subsequent frames.
#[derive(Clone, Copy, Debug, PartialEq, Eq, Structural)]
pub enum RenderError {
    /// Malformed or inconsistent CPU mesh input.
    InvalidMesh(MeshError),
    /// The shader program requires an attribute the geometry cannot supply.
    MissingAttribute(AttributeName),
    /// A material set a uniform the program does not declare.
    UniformMismatch(UniformName),
    /// The graphics context could not allocate a buffer of the requested
    /// element count.
    ResourceAllocation {
        /// Number of elements the allocation asked for.
        requested: usize,
        /// Largest element count the context can serve.
        capacity: usize,
    },
}

} // verus!
