//! Tests for the particle system: construction, update, transformation,
//! and the simulated trajectory scenario.

use three_d::buffer::Context;
use three_d::camera::{Camera, Light, Viewport};
use three_d::error::RenderError;
use three_d::geometry::{AxisAlignedBoundingBox, Geometry, RenderableWith};
use three_d::material::UVMaterial;
use three_d::math::{vec2, vec3, Vec2, Vec3};
use three_d::matrix::{identity, invert, transpose, Mat4};
use three_d::mesh::{CpuMesh, Indices};
use three_d::particles::{ParticleData, Particles};

/// A unit icosphere: the twelve vertices and twenty faces of an
/// icosahedron scaled to (approximately) unit length.
fn unit_icosphere() -> CpuMesh {
    let a = 526;
    let b = 851;
    let positions = vec![
        vec3(-a, b, 0),
        vec3(a, b, 0),
        vec3(-a, -b, 0),
        vec3(a, -b, 0),
        vec3(0, -a, b),
        vec3(0, a, b),
        vec3(0, -a, -b),
        vec3(0, a, -b),
        vec3(b, 0, -a),
        vec3(b, 0, a),
        vec3(-b, 0, -a),
        vec3(-b, 0, a),
    ];
    let uvs: Vec<Vec2> = (0..12).map(|i| vec2(i * 50, i * 80)).collect();
    let indices: Vec<u8> = vec![
        0, 11, 5, 0, 5, 1, 0, 1, 7, 0, 7, 10, 0, 10, 11, 1, 5, 9, 5, 11, 4, 11, 10, 2, 10, 7, 6,
        7, 1, 8, 3, 9, 4, 3, 4, 2, 3, 2, 6, 3, 6, 8, 3, 8, 9, 4, 9, 5, 2, 4, 11, 6, 2, 10, 8, 6,
        7, 9, 8, 1,
    ];
    CpuMesh {
        positions,
        normals: None,
        uvs: Some(uvs),
        indices: Some(Indices::U8(indices)),
    }
}

fn camera() -> Camera {
    Camera::new(identity(), identity(), Viewport { x: 0, y: 0, width: 640, height: 480 })
}

#[test]
fn new_succeeds_on_valid_mesh_and_aabb_is_infinite() {
    let context = Context::new(4096);
    let particles = Particles::new(&context, &unit_icosphere()).unwrap();
    assert_eq!(particles.aabb(), AxisAlignedBoundingBox::Infinite);
    assert_eq!(particles.instance_count(), 0);
    assert_eq!(particles.acceleration, vec3(0, -9820, 0));
    assert_eq!(particles.time, 0);
    assert_eq!(particles.transformation(), identity());
    assert_eq!(particles.normal_transformation(), identity());
}

#[test]
fn new_fails_when_positions_exceed_capacity() {
    let context = Context::new(2);
    let err = match Particles::new(&context, &unit_icosphere()) {
        Err(e) => e,
        Ok(_) => panic!("expected an allocation failure"),
    };
    assert_eq!(err, RenderError::ResourceAllocation { requested: 12, capacity: 2 });
}

#[test]
fn new_fails_when_indices_exceed_capacity() {
    let context = Context::new(12);
    let err = match Particles::new(&context, &unit_icosphere()) {
        Err(e) => e,
        Ok(_) => panic!("expected an allocation failure"),
    };
    assert_eq!(err, RenderError::ResourceAllocation { requested: 60, capacity: 12 });
}

#[test]
fn new_propagates_mesh_validation_errors() {
    let context = Context::new(4096);
    let mesh = CpuMesh { positions: Vec::new(), normals: None, uvs: None, indices: None };
    let err = match Particles::new(&context, &mesh) {
        Err(e) => e,
        Ok(_) => panic!("expected a validation failure"),
    };
    assert!(matches!(err, RenderError::InvalidMesh(_)));
}

#[test]
fn update_sets_instance_count() {
    let context = Context::new(4096);
    let mut particles = Particles::new(&context, &unit_icosphere()).unwrap();
    let data: Vec<ParticleData> = (0..5)
        .map(|i| ParticleData {
            start_position: vec3(i * 100, 0, 0),
            start_velocity: vec3(0, i * 10, 0),
        })
        .collect();
    particles.update(&data).unwrap();
    assert_eq!(particles.instance_count(), 5);
}

#[test]
fn update_supersedes_previous_population() {
    // A shorter update fully replaces a longer one: no residual particles.
    let context = Context::new(4096);
    let mut particles = Particles::new(&context, &unit_icosphere()).unwrap();
    let many: Vec<ParticleData> = (0..7)
        .map(|i| ParticleData {
            start_position: vec3(i, i, i),
            start_velocity: vec3(0, 0, 0),
        })
        .collect();
    particles.update(&many).unwrap();
    assert_eq!(particles.instance_count(), 7);
    let one = [ParticleData { start_position: vec3(9, 9, 9), start_velocity: vec3(1, 0, 0) }];
    particles.update(&one).unwrap();
    assert_eq!(particles.instance_count(), 1);
    // The draw call sees only the new population.
    let material = UVMaterial::default();
    let lights: Vec<Light> = Vec::new();
    let draw = particles.render_with_material(&material, &camera(), &lights).unwrap();
    assert_eq!(draw.instance_count, 1);
}

#[test]
fn update_fails_beyond_capacity_and_keeps_state() {
    let context = Context::new(16);
    let mesh = CpuMesh {
        positions: vec![vec3(0, 0, 0), vec3(1000, 0, 0), vec3(0, 1000, 0)],
        normals: None,
        uvs: None,
        indices: None,
    };
    let mut particles = Particles::new(&context, &mesh).unwrap();
    let small = [ParticleData { start_position: vec3(1, 2, 3), start_velocity: vec3(0, 0, 0) }];
    particles.update(&small).unwrap();
    let too_many: Vec<ParticleData> = (0..17)
        .map(|_| ParticleData { start_position: vec3(0, 0, 0), start_velocity: vec3(0, 0, 0) })
        .collect();
    let err = particles.update(&too_many).unwrap_err();
    assert_eq!(err, RenderError::ResourceAllocation { requested: 17, capacity: 16 });
    assert_eq!(particles.instance_count(), 1);
}

#[test]
fn set_transformation_stores_matrix_and_normal_transformation() {
    let context = Context::new(4096);
    let mut particles = Particles::new(&context, &unit_icosphere()).unwrap();
    let scale_by_two = Mat4 {
        m00: 2000,
        m01: 0,
        m02: 0,
        m03: 0,
        m10: 0,
        m11: 2000,
        m12: 0,
        m13: 0,
        m20: 0,
        m21: 0,
        m22: 2000,
        m23: 0,
        m30: 0,
        m31: 0,
        m32: 0,
        m33: 1000,
    };
    particles.set_transformation(scale_by_two);
    assert_eq!(particles.transformation(), scale_by_two);
    let expected = transpose(&invert(&scale_by_two).unwrap());
    assert_eq!(particles.normal_transformation(), expected);
    assert_eq!(particles.normal_transformation().m00, 500);
}

#[test]
fn set_transformation_with_translation() {
    let context = Context::new(4096);
    let mut particles = Particles::new(&context, &unit_icosphere()).unwrap();
    let mut translation = identity();
    translation.m03 = 2000;
    translation.m13 = -3000;
    particles.set_transformation(translation);
    let normal = particles.normal_transformation();
    assert_eq!(normal, transpose(&invert(&translation).unwrap()));
    assert_eq!(normal.m30, -2000);
    assert_eq!(normal.m31, 3000);
}

#[test]
fn set_transformation_singular_falls_back_to_identity() {
    let context = Context::new(4096);
    let mut particles = Particles::new(&context, &unit_icosphere()).unwrap();
    let zero = Mat4 {
        m00: 0,
        m01: 0,
        m02: 0,
        m03: 0,
        m10: 0,
        m11: 0,
        m12: 0,
        m13: 0,
        m20: 0,
        m21: 0,
        m22: 0,
        m23: 0,
        m30: 0,
        m31: 0,
        m32: 0,
        m33: 0,
    };
    particles.set_transformation(zero);
    assert_eq!(particles.transformation(), zero);
    assert_eq!(particles.normal_transformation(), identity());
}

#[test]
fn icosphere_particle_follows_gravity_trajectory() {
    // One particle thrown up at one unit per second under default gravity:
    // after one second its centre sits at (0, 1 - 4.91, 0) = (0, -3.91, 0).
    let context = Context::new(4096);
    let mut particles = Particles::new(&context, &unit_icosphere()).unwrap();
    let data = ParticleData { start_position: vec3(0, 0, 0), start_velocity: vec3(0, 1000, 0) };
    particles.update(&[data]).unwrap();
    particles.time = 1000;
    let position: Vec3 = particles.particle_position(&data);
    assert_eq!(position, vec3(0, -3910, 0));
    // The same frame issues one instanced indexed draw over the icosphere.
    let material = UVMaterial::default();
    let lights: Vec<Light> = Vec::new();
    let draw = particles.render_with_material(&material, &camera(), &lights).unwrap();
    assert_eq!(draw.instance_count, 1);
}

#[test]
fn update_with_no_particles_empties_the_population() {
    let context = Context::new(4096);
    let mut particles = Particles::new(&context, &unit_icosphere()).unwrap();
    let some = [ParticleData { start_position: vec3(1, 2, 3), start_velocity: vec3(4, 5, 6) }];
    particles.update(&some).unwrap();
    assert_eq!(particles.instance_count(), 1);
    let none: [ParticleData; 0] = [];
    particles.update(&none).unwrap();
    assert_eq!(particles.instance_count(), 0);
}
