//! Tests for the geometry-material combinator.

use three_d::buffer::Context;
use three_d::camera::{Camera, Light, Viewport};
use three_d::geometry::{AxisAlignedBoundingBox, Geometry, RenderableWith};
use three_d::gm::{Gm, Object};
use three_d::material::{Material, UVMaterial};
use three_d::math::{vec2, vec3};
use three_d::matrix::identity;
use three_d::mesh::{CpuMesh, Indices};
use three_d::particles::{ParticleData, Particles};
use three_d::render_states::{Blend, RenderStates};

fn camera() -> Camera {
    Camera::new(identity(), identity(), Viewport { x: 0, y: 0, width: 800, height: 600 })
}

fn quad_mesh() -> CpuMesh {
    CpuMesh {
        positions: vec![vec3(0, 0, 0), vec3(1000, 0, 0), vec3(1000, 1000, 0), vec3(0, 1000, 0)],
        normals: None,
        uvs: Some(vec![vec2(0, 0), vec2(1000, 0), vec2(1000, 1000), vec2(0, 1000)]),
        indices: Some(Indices::U8(vec![0, 1, 2, 0, 2, 3])),
    }
}

fn sample_gm() -> Gm<Particles, UVMaterial> {
    let context = Context::new(256);
    let particles = Particles::new(&context, &quad_mesh()).unwrap();
    Gm::new(particles, UVMaterial::default())
}

#[test]
fn gm_new_owns_geometry_and_material() {
    let gm = sample_gm();
    assert_eq!(gm.material.render_states, RenderStates::default());
    assert_eq!(gm.geometry.instance_count(), 0);
}

#[test]
fn gm_forwards_aabb_to_geometry() {
    let gm = sample_gm();
    assert_eq!(gm.aabb(), AxisAlignedBoundingBox::Infinite);
    assert_eq!(gm.aabb(), gm.geometry.aabb());
}

#[test]
fn gm_is_transparent_reports_owned_material() {
    let gm = sample_gm();
    assert_eq!(gm.is_transparent(), gm.material.is_transparent());
    assert!(!gm.is_transparent());
}

#[test]
fn gm_is_transparent_tracks_material_mutation_in_place() {
    let mut gm = sample_gm();
    gm.material.render_states.blend = Blend::TransparencyBlend;
    // The transparency flag is read through the owned material at call
    // time; for this material it stays opaque whatever its states.
    assert_eq!(gm.is_transparent(), gm.material.is_transparent());
    // The mutated render states reach the next draw call unwrapped.
    let lights: Vec<Light> = Vec::new();
    let draw = gm.render(&camera(), &lights).unwrap();
    assert_eq!(draw.render_states.blend, Blend::TransparencyBlend);
}

#[test]
fn gm_render_equals_render_with_owned_material() {
    let mut gm = sample_gm();
    let data = [ParticleData { start_position: vec3(0, 0, 0), start_velocity: vec3(0, 500, 0) }];
    gm.geometry.update(&data).unwrap();
    let lights: Vec<Light> = Vec::new();
    let through_object = gm.render(&camera(), &lights).unwrap();
    let through_geometry =
        gm.geometry.render_with_material(&gm.material, &camera(), &lights).unwrap();
    assert_eq!(through_object, through_geometry);
    assert_eq!(through_object.instance_count, 1);
}

#[test]
fn gm_render_with_material_overrides_owned_material() {
    let gm = sample_gm();
    let override_material = UVMaterial {
        render_states: RenderStates { blend: Blend::Add, ..RenderStates::default() },
    };
    let lights: Vec<Light> = Vec::new();
    let draw = gm.render_with_material(&override_material, &camera(), &lights).unwrap();
    assert_eq!(draw.render_states.blend, Blend::Add);
}
