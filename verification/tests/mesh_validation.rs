//! Tests for CPU mesh validation.

use three_d::error::{MeshError, RenderError};
use three_d::math::{vec2, vec3, Vec2, Vec3};
use three_d::mesh::{CpuMesh, Indices};

fn triangle_positions() -> Vec<Vec3> {
    vec![vec3(0, 0, 0), vec3(1000, 0, 0), vec3(0, 1000, 0)]
}

fn triangle_uvs() -> Vec<Vec2> {
    vec![vec2(0, 0), vec2(1000, 0), vec2(0, 1000)]
}

#[test]
fn valid_mesh_passes_validation() {
    let mesh = CpuMesh {
        positions: triangle_positions(),
        normals: Some(vec![vec3(0, 0, 1000); 3]),
        uvs: Some(triangle_uvs()),
        indices: Some(Indices::U8(vec![0, 1, 2])),
    };
    assert_eq!(mesh.validate(), Ok(()));
}

#[test]
fn empty_positions_are_rejected() {
    let mesh = CpuMesh { positions: Vec::new(), normals: None, uvs: None, indices: None };
    assert_eq!(mesh.validate(), Err(RenderError::InvalidMesh(MeshError::NoPositions)));
}

#[test]
fn normal_count_mismatch_is_rejected() {
    let mesh = CpuMesh {
        positions: triangle_positions(),
        normals: Some(vec![vec3(0, 0, 1000); 2]),
        uvs: None,
        indices: None,
    };
    assert_eq!(
        mesh.validate(),
        Err(RenderError::InvalidMesh(MeshError::NormalCountMismatch { positions: 3, normals: 2 }))
    );
}

#[test]
fn uv_count_mismatch_is_rejected() {
    let mesh = CpuMesh {
        positions: triangle_positions(),
        normals: None,
        uvs: Some(vec![vec2(0, 0); 5]),
        indices: None,
    };
    assert_eq!(
        mesh.validate(),
        Err(RenderError::InvalidMesh(MeshError::UvCountMismatch { positions: 3, uvs: 5 }))
    );
}

#[test]
fn index_out_of_bounds_is_rejected_u8() {
    let mesh = CpuMesh {
        positions: triangle_positions(),
        normals: None,
        uvs: None,
        indices: Some(Indices::U8(vec![0, 7, 2])),
    };
    assert_eq!(
        mesh.validate(),
        Err(RenderError::InvalidMesh(MeshError::IndexOutOfBounds { index: 7, positions: 3 }))
    );
}

#[test]
fn index_out_of_bounds_is_rejected_u16() {
    let mesh = CpuMesh {
        positions: triangle_positions(),
        normals: None,
        uvs: None,
        indices: Some(Indices::U16(vec![0, 1, 300])),
    };
    assert_eq!(
        mesh.validate(),
        Err(RenderError::InvalidMesh(MeshError::IndexOutOfBounds { index: 300, positions: 3 }))
    );
}

#[test]
fn index_out_of_bounds_is_rejected_u32() {
    let mesh = CpuMesh {
        positions: triangle_positions(),
        normals: None,
        uvs: None,
        indices: Some(Indices::U32(vec![3, 1, 2])),
    };
    assert_eq!(
        mesh.validate(),
        Err(RenderError::InvalidMesh(MeshError::IndexOutOfBounds { index: 3, positions: 3 }))
    );
}

#[test]
fn validation_checks_positions_before_normals() {
    let mesh = CpuMesh {
        positions: Vec::new(),
        normals: Some(vec![vec3(0, 0, 1000); 2]),
        uvs: None,
        indices: None,
    };
    assert_eq!(mesh.validate(), Err(RenderError::InvalidMesh(MeshError::NoPositions)));
}
