//! CPU-side mesh data and its validation.

use vstd::prelude::*;
use crate::error::{MeshError, RenderError};
use crate::math::{Vec2, Vec3};

verus! {

/// Triangle indices of a CPU mesh, kept at the narrowest width they came in.
pub enum Indices {
    /// Eight-bit indices.
    U8(Vec<u8>),
    /// Sixteen-bit indices.
    U16(Vec<u16>),
    /// Thirty-two-bit indices.
    U32(Vec<u32>),
}

impl Indices {
    /// The index values widened to `u32`.
    pub open spec fn spec_as_u32s(&self) -> Seq<u32> {
        match self {
            Indices::U8(v) => v@.map_values(|x: u8| x as u32),
            Indices::U16(v) => v@.map_values(|x: u16| x as u32),
            Indices::U32(v) => v@,
        }
    }
}

/// Every index in the sequence points below `n`.
pub open spec fn indices_in_bounds(s: Seq<u32>, n: int) -> bool {
    forall|i: int| 0 <= i < s.len() ==> ((#[trigger] s[i]) as int) < n
}

/// A CPU-side mesh: positions, with optional normals, texture coordinates
/// and triangle indices, as an asset loader hands them over.
pub struct CpuMesh {
    /// One position per vertex.
    pub positions: Vec<Vec3>,
    /// One normal per vertex, when present.
    pub normals: Option<Vec<Vec3>>,
    /// One texture coordinate pair per vertex, when present.
    pub uvs: Option<Vec<Vec2>>,
    /// Triangle indices into the positions, when present.
    pub indices: Option<Indices>,
}

impl CpuMesh {
    /// The normals, when present, count one per position.
    pub open spec fn spec_normals_ok(&self) -> bool {
        match self.normals {
            Some(n) => n@.len() == self.positions@.len(),
            None => true,
        }
    }

    /// The texture coordinates, when present, count one per position.
    pub open spec fn spec_uvs_ok(&self) -> bool {
        match self.uvs {
            Some(u) => u@.len() == self.positions@.len(),
            None => true,
        }
    }

    /// The indices, when present, all point below the position count.
    pub open spec fn spec_indices_ok(&self) -> bool {
        match self.indices {
            Some(ind) => indices_in_bounds(ind.spec_as_u32s(), self.positions@.len() as int),
            None => true,
        }
    }

    /// Mesh consistency: at least one position; normals and texture
    /// coordinates, when present, one per position; every index below the
    /// position count.
    pub open spec fn spec_valid(&self) -> bool {
        &&& self.positions@.len() > 0
        &&& self.spec_normals_ok()
        &&& self.spec_uvs_ok()
        &&& self.spec_indices_ok()
    }

    /// Checks mesh consistency, reporting the first inconsistency in the
    /// order: positions, normals, texture coordinates, indices.
    #[verifier::loop_isolation(false)]
    pub fn validate(&self) -> (r: Result<(), RenderError>)
        ensures
            r is Ok <==> self.spec_valid(),
            !(r is Ok) ==> r matches Err(RenderError::InvalidMesh(_)),
            self.positions@.len() == 0 ==> r == Err::<(), RenderError>(
                RenderError::InvalidMesh(MeshError::NoPositions),
            ),
            self.positions@.len() > 0 && !self.spec_normals_ok() ==> (match self.normals {
                Some(n) => r == Err::<(), RenderError>(
                    RenderError::InvalidMesh(
                        MeshError::NormalCountMismatch {
                            positions: self.positions@.len() as usize,
                            normals: n@.len() as usize,
                        },
                    ),
                ),
                None => false,
            }),
            self.positions@.len() > 0 && self.spec_normals_ok() && !self.spec_uvs_ok() ==> (
            match self.uvs {
                Some(u) => r == Err::<(), RenderError>(
                    RenderError::InvalidMesh(
                        MeshError::UvCountMismatch {
                            positions: self.positions@.len() as usize,
                            uvs: u@.len() as usize,
                        },
                    ),
                ),
                None => false,
            }),
            self.positions@.len() > 0 && self.spec_normals_ok() && self.spec_uvs_ok()
                && !self.spec_indices_ok() ==> (match r {
                Err(RenderError::InvalidMesh(MeshError::IndexOutOfBounds { index, positions })) => {
                    &&& positions == self.positions@.len() as usize
                    &&& (match self.indices {
                        Some(ind) => ind.spec_as_u32s().contains(index) && (index as int)
                            >= self.positions@.len() as int,
                        None => false,
                    })
                },
                _ => false,
            }),
    {
        let n = self.positions.len();
        if n == 0 {
            return Err(RenderError::InvalidMesh(MeshError::NoPositions));
        }
        if let Some(normals) = &self.normals {
            if normals.len() != n {
                return Err(
                    RenderError::InvalidMesh(
                        MeshError::NormalCountMismatch { positions: n, normals: normals.len() },
                    ),
                );
            }
        }
        if let Some(uvs) = &self.uvs {
            if uvs.len() != n {
                return Err(
                    RenderError::InvalidMesh(
                        MeshError::UvCountMismatch { positions: n, uvs: uvs.len() },
                    ),
                );
            }
        }
        if let Some(indices) = &self.indices {
            match indices {
                Indices::U8(v) => {
                    let mut i: usize = 0;
                    while i < v.len()
                        invariant
                            i <= v@.len(),
                            n == self.positions@.len(),
                            forall|j: int| 0 <= j < i ==> ((#[trigger] v@[j]) as int) < n as int,
                        decreases v@.len() - i,
                    {
                        if v[i] as usize >= n {
                            proof {
                                let s = indices.spec_as_u32s();
                                assert(s.len() == v@.len());
                                assert(s[i as int] == v@[i as int] as u32);
                                assert(s.contains(s[i as int]));
                            }
                            return Err(
                                RenderError::InvalidMesh(
                                    MeshError::IndexOutOfBounds {
                                        index: v[i] as u32,
                                        positions: n,
                                    },
                                ),
                            );
                        }
                        i = i + 1;
                    }
                    proof {
                        let s = indices.spec_as_u32s();
                        assert(s.len() == v@.len());
                        assert forall|j: int| 0 <= j < s.len() implies ((#[trigger] s[j]) as int)
                            < n as int by {
                            assert(s[j] == v@[j] as u32);
                        }
                    }
                },
                Indices::U16(v) => {
                    let mut i: usize = 0;
                    while i < v.len()
                        invariant
                            i <= v@.len(),
                            n == self.positions@.len(),
                            forall|j: int| 0 <= j < i ==> ((#[trigger] v@[j]) as int) < n as int,
                        decreases v@.len() - i,
                    {
                        if v[i] as usize >= n {
                            proof {
                                let s = indices.spec_as_u32s();
                                assert(s.len() == v@.len());
                                assert(s[i as int] == v@[i as int] as u32);
                                assert(s.contains(s[i as int]));
                            }
                            return Err(
                                RenderError::InvalidMesh(
                                    MeshError::IndexOutOfBounds {
                                        index: v[i] as u32,
                                        positions: n,
                                    },
                                ),
                            );
                        }
                        i = i + 1;
                    }
                    proof {
                        let s = indices.spec_as_u32s();
                        assert(s.len() == v@.len());
                        assert forall|j: int| 0 <= j < s.len() implies ((#[trigger] s[j]) as int)
                            < n as int by {
                            assert(s[j] == v@[j] as u32);
                        }
                    }
                },
                Indices::U32(v) => {
                    let mut i: usize = 0;
                    while i < v.len()
                        invariant
                            i <= v@.len(),
                            n == self.positions@.len(),
                            forall|j: int| 0 <= j < i ==> ((#[trigger] v@[j]) as int) < n as int,
                        decreases v@.len() - i,
                    {
                        if v[i] as u64 >= n as u64 {
                            proof {
                                let s = indices.spec_as_u32s();
                                assert(s.len() == v@.len());
                                assert(s[i as int] == v@[i as int]);
                                assert(s.contains(s[i as int]));
                            }
                            return Err(
                                RenderError::InvalidMesh(
                                    MeshError::IndexOutOfBounds { index: v[i], positions: n },
                                ),
                            );
                        }
                        i = i + 1;
                    }
                },
            }
        }
        Ok(())
    }
}


} // verus!
