//! Tests for shader-source generation, programs, buffers, and draw
//! dispatch, including the missing-attribute failure path.

use three_d::buffer::{Context, ElementBuffer, IndexWidth, VertexBuffer};
use three_d::camera::{Camera, Light, Viewport};
use three_d::error::{AttributeName, RenderError, UniformName};
use three_d::geometry::RenderableWith;
use three_d::material::{
    Color, CpuMaterial, FromCpuMaterial, Material, UVMaterial,
};
use three_d::math::{vec2, vec3, Vec3};
use three_d::matrix::identity;
use three_d::mesh::{CpuMesh, Indices};
use three_d::particles::Particles;
use three_d::program::{DrawKind, FragmentSource, UniformValue, VertexSource};
use three_d::render_states::{Blend, Cull, DepthTest, RenderStates};

fn camera() -> Camera {
    Camera::new(identity(), identity(), Viewport { x: 0, y: 0, width: 320, height: 200 })
}

fn triangle_with_uvs() -> CpuMesh {
    CpuMesh {
        positions: vec![vec3(0, 0, 0), vec3(1000, 0, 0), vec3(0, 1000, 0)],
        normals: None,
        uvs: Some(vec![vec2(0, 0), vec2(1000, 0), vec2(0, 1000)]),
        indices: Some(Indices::U16(vec![0, 1, 2])),
    }
}

#[test]
fn uv_material_fragment_source_consumes_uvs_only() {
    let material = UVMaterial::default();
    let lights: Vec<Light> = Vec::new();
    let source = material.fragment_shader_source(false, &lights);
    assert!(source.input_uv);
    assert!(!source.input_position);
    assert!(!source.input_normal);
}

#[test]
fn vertex_source_mirrors_fragment_capabilities() {
    let fragment = FragmentSource { input_position: true, input_normal: false, input_uv: true };
    let vertex = Particles::vertex_shader_source(&fragment);
    assert!(vertex.pass_position);
    assert!(!vertex.pass_normal);
    assert!(vertex.pass_uv);
}

#[test]
fn program_requires_declared_attributes() {
    let context = Context::new(64);
    let vertex = VertexSource { pass_position: false, pass_normal: false, pass_uv: true };
    let fragment = FragmentSource { input_position: false, input_normal: false, input_uv: true };
    let program = context.program(vertex, fragment);
    assert!(program.requires_attribute(AttributeName::Position));
    assert!(program.requires_attribute(AttributeName::StartPosition));
    assert!(program.requires_attribute(AttributeName::StartVelocity));
    assert!(program.requires_attribute(AttributeName::UvCoordinates));
    assert!(!program.requires_attribute(AttributeName::Normal));
}

#[test]
fn undeclared_uniform_is_a_hard_error() {
    let context = Context::new(64);
    let vertex = VertexSource { pass_position: false, pass_normal: false, pass_uv: false };
    let fragment = FragmentSource { input_position: false, input_normal: false, input_uv: false };
    let program = context.program(vertex, fragment);
    assert_eq!(program.use_uniform(UniformName::Time, UniformValue::Scalar(0)), Ok(()));
    assert_eq!(
        program.use_uniform(UniformName::NormalMatrix, UniformValue::Matrix4(identity())),
        Err(RenderError::UniformMismatch(UniformName::NormalMatrix))
    );
}

#[test]
fn vertex_buffer_allocation_respects_capacity() {
    let context = Context::new(2);
    let data: Vec<Vec3> = vec![vec3(0, 0, 0), vec3(1, 1, 1), vec3(2, 2, 2)];
    let err = match VertexBuffer::new_with_data(&context, &data) {
        Err(e) => e,
        Ok(_) => panic!("expected an allocation failure"),
    };
    assert_eq!(err, RenderError::ResourceAllocation { requested: 3, capacity: 2 });
    let ok = match VertexBuffer::new_with_data(&context, &data[0..2]) {
        Ok(b) => b,
        Err(_) => panic!("expected the allocation to succeed"),
    };
    assert_eq!(ok.vertex_count(), 2);
}

#[test]
fn element_buffer_preserves_narrowest_width() {
    let context = Context::new(64);
    let narrow = match ElementBuffer::new_with_data_u8(&context, &[0u8, 1, 2]) {
        Ok(b) => b,
        Err(_) => panic!("expected the allocation to succeed"),
    };
    assert_eq!(narrow.width(), IndexWidth::U8);
    assert_eq!(narrow.count(), 3);
    let wide = match ElementBuffer::new_with_data_u32(&context, &[0u32, 1, 2, 0]) {
        Ok(b) => b,
        Err(_) => panic!("expected the allocation to succeed"),
    };
    assert_eq!(wide.width(), IndexWidth::U32);
    assert_eq!(wide.count(), 4);
}

#[test]
fn render_issues_instanced_indexed_draw() {
    let context = Context::new(64);
    let particles = Particles::new(&context, &triangle_with_uvs()).unwrap();
    let material = UVMaterial::default();
    let lights: Vec<Light> = Vec::new();
    let draw = particles.render_with_material(&material, &camera(), &lights).unwrap();
    assert_eq!(draw.instance_count, 0);
    assert_eq!(draw.kind, DrawKind::ElementsInstanced { element_count: 3, width: IndexWidth::U16 });
    assert_eq!(draw.viewport, Viewport { x: 0, y: 0, width: 320, height: 200 });
    assert_eq!(draw.render_states, RenderStates::default());
}

#[test]
fn render_issues_non_indexed_draw_without_index_buffer() {
    let context = Context::new(64);
    let mut mesh = triangle_with_uvs();
    mesh.indices = None;
    let particles = Particles::new(&context, &mesh).unwrap();
    let material = UVMaterial::default();
    let lights: Vec<Light> = Vec::new();
    let draw = particles.render_with_material(&material, &camera(), &lights).unwrap();
    assert_eq!(draw.kind, DrawKind::ArraysInstanced { vertex_count: 3 });
}

#[test]
fn render_without_uv_buffer_fails_with_missing_attribute() {
    // The texture-coordinate debug material consumes uv coordinates, so a
    // mesh without them must fail the render rather than draw garbage.
    let context = Context::new(64);
    let mut mesh = triangle_with_uvs();
    mesh.uvs = None;
    let particles = Particles::new(&context, &mesh).unwrap();
    let material = UVMaterial::default();
    let lights: Vec<Light> = Vec::new();
    let err = particles.render_with_material(&material, &camera(), &lights).unwrap_err();
    assert_eq!(err, RenderError::MissingAttribute(AttributeName::UvCoordinates));
    match err {
        RenderError::MissingAttribute(name) => assert_eq!(name.label(), "uv coordinate"),
        _ => unreachable!(),
    }
}

#[test]
fn render_uses_material_render_states() {
    let context = Context::new(64);
    let particles = Particles::new(&context, &triangle_with_uvs()).unwrap();
    let material = UVMaterial {
        render_states: RenderStates {
            blend: Blend::TransparencyBlend,
            depth_test: DepthTest::Always,
            cull: Cull::Back,
        },
    };
    let lights: Vec<Light> = Vec::new();
    let draw = particles.render_with_material(&material, &camera(), &lights).unwrap();
    assert_eq!(draw.render_states.blend, Blend::TransparencyBlend);
    assert_eq!(draw.render_states.depth_test, DepthTest::Always);
    assert_eq!(draw.render_states.cull, Cull::Back);
}

#[test]
fn from_cpu_material_builds_default_uv_material() {
    let context = Context::new(64);
    let cpu = CpuMaterial { albedo: Color { r: 255, g: 128, b: 0, a: 255 } };
    let material: UVMaterial = UVMaterial::from_cpu_material(&context, &cpu).unwrap();
    assert_eq!(material.render_states, RenderStates::default());
    assert!(!material.is_transparent());
}

#[test]
fn default_render_states_are_opaque() {
    let states = RenderStates::default();
    assert_eq!(states.blend, Blend::Disabled);
    assert_eq!(states.depth_test, DepthTest::Less);
    assert_eq!(states.cull, Cull::Disabled);
}
