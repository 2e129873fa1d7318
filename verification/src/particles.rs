//! A particle effect that can be rendered with any material.
//!
//! Each particle is initialised with a start position and a start velocity
//! by [`Particles::update`], under a global acceleration.  As time passes
//! its position follows the motion law
//! `position = start_position + start_velocity * time + acceleration * time * time / 2`,
//! evaluated per frame in the vertex shader from the per-instance
//! attributes; [`Particles::particle_position`] evaluates the same law on
//! the CPU.  The mesh geometry is drawn once per particle with an instanced
//! draw call.

use vstd::prelude::*;
use crate::buffer::{Context, ElementBuffer, IndexWidth, InstanceBuffer, VertexBuffer};
use crate::camera::{Camera, Light};
use crate::error::{AttributeName, MeshError, RenderError, UniformName};
use crate::geometry::{AxisAlignedBoundingBox, Geometry, RenderableWith};
use crate::material::Material;
use crate::math::{
    in_coord_range, position_at, spec_position_component, Vec2, Vec3, COORD_LIMIT, SCALE,
};
use crate::matrix::{
    identity, normal_matrix_of, spec_identity, spec_normal_of, Mat4,
};
use crate::mesh::{indices_in_bounds, CpuMesh, Indices};
use crate::program::{
    spec_new_program, DrawCommand, DrawKind, FragmentSource, UniformValue, VertexSource,
};
use crate::render_states::RenderStates;

verus! {

/// The initial condition of one particle: where it starts and how fast it
/// moves when it starts.
#[derive(Clone, Copy, Debug, PartialEq, Eq, Structural)]
pub struct ParticleData {
    /// Initial position of the particle.
    pub start_position: Vec3,
    /// Initial velocity of the particle.
    pub start_velocity: Vec3,
}

/// Earth gravity in fixed point, the default acceleration.
pub open spec fn spec_gravity() -> Vec3 {
    Vec3 { x: 0, y: -9820i64, z: 0 }
}

/// Texture coordinates with the second component flipped, matching the
/// texture-sampling convention of the render target.
pub open spec fn spec_flip_uvs(uvs: Seq<Vec2>) -> Seq<Vec2> {
    uvs.map_values(|uv: Vec2| Vec2 { x: uv.x, y: (SCALE - uv.y) as i64 })
}

/// The mesh buffers fit the context's allocation capacity.
pub open spec fn spec_mesh_fits(mesh: CpuMesh, capacity: int) -> bool {
    &&& mesh.positions@.len() <= capacity
    &&& match mesh.indices {
        Some(ind) => ind.spec_as_u32s().len() <= capacity,
        None => true,
    }
}

/// The vertex-stage capability set generated for a fragment source: each
/// optional passthrough (position, normal, texture coordinates) is emitted
/// exactly when the fragment source consumes it, so one particle system can
/// drive materials with different attribute needs.
pub open spec fn spec_vertex_shader_source(fragment_source: FragmentSource) -> VertexSource {
    VertexSource {
        pass_position: fragment_source.input_position,
        pass_normal: fragment_source.input_normal,
        pass_uv: fragment_source.input_uv,
    }
}

/// A particle effect: shared mesh vertex buffers, per-instance start
/// condition buffers, and the transformation state applied to all particles.
pub struct Particles {
    context: Context,
    start_position_buffer: InstanceBuffer<Vec3>,
    start_velocity_buffer: InstanceBuffer<Vec3>,
    position_buffer: VertexBuffer<Vec3>,
    normal_buffer: Option<VertexBuffer<Vec3>>,
    uv_buffer: Option<VertexBuffer<Vec2>>,
    index_buffer: Option<ElementBuffer>,
    /// The acceleration applied to all particles.  Defaults to gravity.
    pub acceleration: Vec3,
    instance_count: u32,
    transformation: Mat4,
    normal_transformation: Mat4,
    /// A time variable that should be advanced by the caller each frame;
    /// the component keeps no internal clock.
    pub time: i64,
}

impl Particles {
    /// The mesh vertex positions.
    pub closed spec fn spec_positions(self) -> Seq<Vec3> {
        self.position_buffer.spec_data()
    }

    /// The mesh normals, when uploaded.
    pub closed spec fn spec_normals(self) -> Option<Seq<Vec3>> {
        match self.normal_buffer {
            Some(b) => Some(b.spec_data()),
            None => None,
        }
    }

    /// The mesh texture coordinates (already flipped), when uploaded.
    pub closed spec fn spec_uvs(self) -> Option<Seq<Vec2>> {
        match self.uv_buffer {
            Some(b) => Some(b.spec_data()),
            None => None,
        }
    }

    /// The mesh indices widened to `u32`, when uploaded.
    pub closed spec fn spec_indices(self) -> Option<Seq<u32>> {
        match self.index_buffer {
            Some(b) => Some(b.spec_data()),
            None => None,
        }
    }

    /// The width the mesh indices were uploaded with, when uploaded.
    pub closed spec fn spec_index_width(self) -> Option<IndexWidth> {
        match self.index_buffer {
            Some(b) => Some(b.spec_width()),
            None => None,
        }
    }

    /// The per-instance start positions of the current particles.
    pub closed spec fn spec_start_positions(self) -> Seq<Vec3> {
        self.start_position_buffer.spec_data()
    }

    /// The per-instance start velocities of the current particles.
    pub closed spec fn spec_start_velocities(self) -> Seq<Vec3> {
        self.start_velocity_buffer.spec_data()
    }

    /// Number of particles currently alive: the length of the last
    /// `update` call's input.
    pub closed spec fn spec_instance_count(self) -> u32 {
        self.instance_count
    }

    /// The local-to-world transformation applied to all particles.
    pub closed spec fn spec_transformation(self) -> Mat4 {
        self.transformation
    }

    /// The cached normal transformation: always the transposed fixed-point
    /// inverse of the transformation (identity when no inverse exists).
    pub closed spec fn spec_normal_transformation(self) -> Mat4 {
        self.normal_transformation
    }

    /// The allocation capacity of the owning context.
    pub closed spec fn spec_capacity(self) -> usize {
        self.context.max_buffer_elements
    }

    /// The acceleration applied to all particles.
    pub closed spec fn spec_acceleration(self) -> Vec3 {
        self.acceleration
    }

    /// The caller-driven time value.
    pub closed spec fn spec_time(self) -> i64 {
        self.time
    }

    /// Generates the vertex shader source matching a fragment source:
    /// the motion law and the always-present attributes, plus a
    /// passthrough for each varying the fragment stage consumes.
    pub fn vertex_shader_source(fragment_shader_source: &FragmentSource) -> (r: VertexSource)
        ensures
            r == spec_vertex_shader_source(*fragment_shader_source),
    {
        VertexSource {
            pass_position: fragment_shader_source.input_position,
            pass_normal: fragment_shader_source.input_normal,
            pass_uv: fragment_shader_source.input_uv,
        }
    }

    /// Creates a new set of particles with geometry defined by the given
    /// CPU mesh.  Construction is all-or-nothing: an invalid mesh or a
    /// failed allocation returns the error and no particle system.
    ///
    /// The context capacity bound and the texture-coordinate bound are
    /// machine limits: counts must fit the device's 32-bit instance counts
    /// and the fixed-point flip must not overflow.
    #[verifier::loop_isolation(false)]
    pub fn new(context: &Context, cpu_mesh: &CpuMesh) -> (r: Result<Particles, RenderError>)
        requires
            context.max_buffer_elements <= u32::MAX,
            match cpu_mesh.uvs {
                Some(u) => forall|i: int|
                    0 <= i < u@.len() ==> (SCALE as int) - (i64::MAX as int) <= (
                    #[trigger] u@[i]).y,
                None => true,
            },
        ensures
            r is Ok <==> cpu_mesh.spec_valid() && spec_mesh_fits(
                *cpu_mesh,
                context.max_buffer_elements as int,
            ),
            !cpu_mesh.spec_valid() ==> r matches Err(RenderError::InvalidMesh(_)),
            cpu_mesh.positions@.len() == 0 ==> r == Err::<Particles, RenderError>(
                RenderError::InvalidMesh(MeshError::NoPositions),
            ),
            cpu_mesh.positions@.len() > 0 && !cpu_mesh.spec_normals_ok() ==> (
            match cpu_mesh.normals {
                Some(n) => r == Err::<Particles, RenderError>(
                    RenderError::InvalidMesh(
                        MeshError::NormalCountMismatch {
                            positions: cpu_mesh.positions@.len() as usize,
                            normals: n@.len() as usize,
                        },
                    ),
                ),
                None => false,
            }),
            cpu_mesh.positions@.len() > 0 && cpu_mesh.spec_normals_ok() && !cpu_mesh.spec_uvs_ok()
                ==> (match cpu_mesh.uvs {
                Some(u) => r == Err::<Particles, RenderError>(
                    RenderError::InvalidMesh(
                        MeshError::UvCountMismatch {
                            positions: cpu_mesh.positions@.len() as usize,
                            uvs: u@.len() as usize,
                        },
                    ),
                ),
                None => false,
            }),
            cpu_mesh.positions@.len() > 0 && cpu_mesh.spec_normals_ok() && cpu_mesh.spec_uvs_ok()
                && !cpu_mesh.spec_indices_ok() ==> (match r {
                Err(RenderError::InvalidMesh(MeshError::IndexOutOfBounds { index, positions })) => {
                    &&& positions == cpu_mesh.positions@.len() as usize
                    &&& (match cpu_mesh.indices {
                        Some(ind) => ind.spec_as_u32s().contains(index) && (index as int)
                            >= cpu_mesh.positions@.len() as int,
                        None => false,
                    })
                },
                _ => false,
            }),
            cpu_mesh.spec_valid() && cpu_mesh.positions@.len() > context.max_buffer_elements
                ==> r == Err::<Particles, RenderError>(
                RenderError::ResourceAllocation {
                    requested: cpu_mesh.positions@.len() as usize,
                    capacity: context.max_buffer_elements,
                },
            ),
            cpu_mesh.spec_valid() && cpu_mesh.positions@.len() <= context.max_buffer_elements
                && !spec_mesh_fits(*cpu_mesh, context.max_buffer_elements as int) ==> (
            match cpu_mesh.indices {
                Some(ind) => r == Err::<Particles, RenderError>(
                    RenderError::ResourceAllocation {
                        requested: ind.spec_as_u32s().len() as usize,
                        capacity: context.max_buffer_elements,
                    },
                ),
                None => false,
            }),
            r matches Ok(p) ==> ({
                &&& p.spec_wf()
                &&& p.spec_positions() == cpu_mesh.positions@
                &&& (match cpu_mesh.normals {
                    Some(n) => p.spec_normals() == Some(n@),
                    None => p.spec_normals() is None,
                })
                &&& (match cpu_mesh.uvs {
                    Some(u) => p.spec_uvs() == Some(spec_flip_uvs(u@)),
                    None => p.spec_uvs() is None,
                })
                &&& (match cpu_mesh.indices {
                    Some(ind) => p.spec_indices() == Some(ind.spec_as_u32s()),
                    None => p.spec_indices() is None,
                })
                &&& p.spec_instance_count() == 0
                &&& p.spec_start_positions() == Seq::<Vec3>::empty()
                &&& p.spec_start_velocities() == Seq::<Vec3>::empty()
                &&& p.spec_acceleration() == spec_gravity()
                &&& p.spec_time() == 0
                &&& p.spec_transformation() == spec_identity()
                &&& p.spec_normal_transformation() == spec_identity()
                &&& p.spec_capacity() == context.max_buffer_elements
            }),
    {
        match cpu_mesh.validate() {
            Ok(()) => (),
            Err(e) => {
                return Err(e);
            },
        }
        let position_buffer = match VertexBuffer::new_with_data(
            context,
            cpu_mesh.positions.as_slice(),
        ) {
            Ok(b) => b,
            Err(e) => {
                return Err(e);
            },
        };
        let normal_buffer = match &cpu_mesh.normals {
            Some(normals) => match VertexBuffer::new_with_data(context, normals.as_slice()) {
                Ok(b) => Some(b),
                Err(e) => {
                    return Err(e);
                },
            },
            None => None,
        };
        let index_buffer = match &cpu_mesh.indices {
            Some(Indices::U8(ind)) => match ElementBuffer::new_with_data_u8(
                context,
                ind.as_slice(),
            ) {
                Ok(b) => Some(b),
                Err(e) => {
                    return Err(e);
                },
            },
            Some(Indices::U16(ind)) => match ElementBuffer::new_with_data_u16(
                context,
                ind.as_slice(),
            ) {
                Ok(b) => Some(b),
                Err(e) => {
                    return Err(e);
                },
            },
            Some(Indices::U32(ind)) => match ElementBuffer::new_with_data_u32(
                context,
                ind.as_slice(),
            ) {
                Ok(b) => Some(b),
                Err(e) => {
                    return Err(e);
                },
            },
            None => None,
        };
        let uv_buffer = match &cpu_mesh.uvs {
            Some(uvs) => {
                let mut flipped: Vec<Vec2> = Vec::new();
                let mut i: usize = 0;
                while i < uvs.len()
                    invariant
                        i <= uvs@.len(),
                        flipped@ == spec_flip_uvs(uvs@.subrange(0, i as int)),
                    decreases uvs@.len() - i,
                {
                    let uv = uvs[i];
                    flipped.push(Vec2 { x: uv.x, y: SCALE - uv.y });
                    proof {
                        assert(spec_flip_uvs(uvs@.subrange(0, i + 1)) =~= spec_flip_uvs(
                            uvs@.subrange(0, i as int),
                        ).push(Vec2 { x: uv.x, y: (SCALE - uv.y) as i64 }));
                    }
                    i = i + 1;
                }
                proof {
                    assert(uvs@.subrange(0, uvs@.len() as int) == uvs@);
                }
                match VertexBuffer::new_with_data(context, flipped.as_slice()) {
                    Ok(b) => Some(b),
                    Err(e) => {
                        return Err(e);
                    },
                }
            },
            None => None,
        };
        proof {
            crate::matrix::lemma_invert_identity();
        }
        Ok(
            Particles {
                context: *context,
                start_position_buffer: InstanceBuffer::new(context),
                start_velocity_buffer: InstanceBuffer::new(context),
                position_buffer,
                normal_buffer,
                uv_buffer,
                index_buffer,
                acceleration: Vec3 { x: 0, y: -9820, z: 0 },
                instance_count: 0,
                transformation: identity(),
                normal_transformation: identity(),
                time: 0,
            },
        )
    }

    /// Returns the local-to-world transformation applied to all particles.
    pub fn transformation(&self) -> (r: Mat4)
        ensures
            r == self.spec_transformation(),
    {
        self.transformation
    }

    /// Returns the cached normal transformation: the transposed fixed-point
    /// inverse of the transformation, or the identity fallback.
    pub fn normal_transformation(&self) -> (r: Mat4)
        ensures
            r == self.spec_normal_transformation(),
    {
        self.normal_transformation
    }

    /// Returns the number of particles currently alive: the length of the
    /// last `update` call's input.
    pub fn instance_count(&self) -> (r: u32)
        ensures
            r == self.spec_instance_count(),
    {
        self.instance_count
    }

    /// Sets the local-to-world transformation applied to all particles and
    /// recomputes the cached normal transformation: the transposed
    /// fixed-point inverse of the new transformation, or the identity as
    /// the documented fallback when no fixed-point inverse exists.
    pub fn set_transformation(&mut self, transformation: Mat4)
        requires
            old(self).spec_wf(),
            transformation.in_range(),
        ensures
            final(self).spec_wf(),
            final(self).spec_transformation() == transformation,
            final(self).spec_normal_transformation() == spec_normal_of(transformation),
            final(self).spec_positions() == old(self).spec_positions(),
            final(self).spec_normals() == old(self).spec_normals(),
            final(self).spec_uvs() == old(self).spec_uvs(),
            final(self).spec_indices() == old(self).spec_indices(),
            final(self).spec_index_width() == old(self).spec_index_width(),
            final(self).spec_start_positions() == old(self).spec_start_positions(),
            final(self).spec_start_velocities() == old(self).spec_start_velocities(),
            final(self).spec_instance_count() == old(self).spec_instance_count(),
            final(self).spec_acceleration() == old(self).spec_acceleration(),
            final(self).spec_time() == old(self).spec_time(),
            final(self).spec_capacity() == old(self).spec_capacity(),
    {
        self.transformation = transformation;
        self.normal_transformation = normal_matrix_of(&transformation);
    }

    /// Replaces the whole particle population with the given initial data,
    /// one entry per particle: the input is de-interleaved into the two
    /// per-instance buffers and the instance count becomes the input
    /// length.  A prior population is fully superseded; on an allocation
    /// failure the previous population stays untouched.
    #[verifier::loop_isolation(false)]
    pub fn update(&mut self, data: &[ParticleData]) -> (r: Result<(), RenderError>)
        requires
            old(self).spec_wf(),
        ensures
            final(self).spec_wf(),
            data@.len() <= old(self).spec_capacity() ==> ({
                &&& r matches Ok(())
                &&& final(self).spec_start_positions() == data@.map_values(
                    |p: ParticleData| p.start_position,
                )
                &&& final(self).spec_start_velocities() == data@.map_values(
                    |p: ParticleData| p.start_velocity,
                )
                &&& final(self).spec_instance_count() == data@.len()
            }),
            data@.len() > old(self).spec_capacity() ==> ({
                &&& r matches Err(RenderError::ResourceAllocation { requested, capacity })
                &&& requested == data@.len()
                &&& capacity == old(self).spec_capacity()
                &&& final(self).spec_start_positions() == old(self).spec_start_positions()
                &&& final(self).spec_start_velocities() == old(self).spec_start_velocities()
                &&& final(self).spec_instance_count() == old(self).spec_instance_count()
            }),
            final(self).spec_positions() == old(self).spec_positions(),
            final(self).spec_normals() == old(self).spec_normals(),
            final(self).spec_uvs() == old(self).spec_uvs(),
            final(self).spec_indices() == old(self).spec_indices(),
            final(self).spec_index_width() == old(self).spec_index_width(),
            final(self).spec_transformation() == old(self).spec_transformation(),
            final(self).spec_normal_transformation() == old(self).spec_normal_transformation(),
            final(self).spec_acceleration() == old(self).spec_acceleration(),
            final(self).spec_time() == old(self).spec_time(),
            final(self).spec_capacity() == old(self).spec_capacity(),
    {
        let mut start_position: Vec<Vec3> = Vec::new();
        let mut start_velocity: Vec<Vec3> = Vec::new();
        let mut i: usize = 0;
        while i < data.len()
            invariant
                i <= data@.len(),
                start_position@ == data@.subrange(0, i as int).map_values(
                    |p: ParticleData| p.start_position,
                ),
                start_velocity@ == data@.subrange(0, i as int).map_values(
                    |p: ParticleData| p.start_velocity,
                ),
            decreases data@.len() - i,
        {
            let particle = data[i];
            start_position.push(particle.start_position);
            start_velocity.push(particle.start_velocity);
            proof {
                assert(data@.subrange(0, i + 1).map_values(|p: ParticleData| p.start_position)
                    =~= data@.subrange(0, i as int).map_values(
                    |p: ParticleData| p.start_position,
                ).push(particle.start_position));
                assert(data@.subrange(0, i + 1).map_values(|p: ParticleData| p.start_velocity)
                    =~= data@.subrange(0, i as int).map_values(
                    |p: ParticleData| p.start_velocity,
                ).push(particle.start_velocity));
            }
            i = i + 1;
        }
        proof {
            assert(data@.subrange(0, data@.len() as int) == data@);
        }
        match self.start_position_buffer.fill(&start_position) {
            Ok(()) => (),
            Err(e) => {
                return Err(e);
            },
        }
        match self.start_velocity_buffer.fill(&start_velocity) {
            Ok(()) => (),
            Err(e) => {
                return Err(e);
            },
        }
        self.instance_count = data.len() as u32;
        Ok(())
    }

    /// Evaluates the motion law for one particle on the CPU: the position
    /// at the current `time` of a particle with the given initial data
    /// under the current `acceleration`, exactly as the vertex shader
    /// computes it per frame.
    pub fn particle_position(&self, particle: &ParticleData) -> (r: Vec3)
        requires
            in_coord_range(particle.start_position),
            in_coord_range(particle.start_velocity),
            in_coord_range(self.spec_acceleration()),
            -COORD_LIMIT <= self.spec_time() <= COORD_LIMIT,
        ensures
            r.x == spec_position_component(
                particle.start_position.x as int,
                particle.start_velocity.x as int,
                self.spec_acceleration().x as int,
                self.spec_time() as int,
            ),
            r.y == spec_position_component(
                particle.start_position.y as int,
                particle.start_velocity.y as int,
                self.spec_acceleration().y as int,
                self.spec_time() as int,
            ),
            r.z == spec_position_component(
                particle.start_position.z as int,
                particle.start_velocity.z as int,
                self.spec_acceleration().z as int,
                self.spec_time() as int,
            ),
    {
        position_at(particle.start_position, particle.start_velocity, self.acceleration, self.time)
    }
}

impl Geometry for Particles {
    /// Internal consistency: the instance buffers hold one entry per
    /// particle, the optional mesh buffers match the position count, every
    /// index points inside the mesh, counts fit the device limits, and the
    /// cached normal transformation matches the transformation.
    closed spec fn spec_wf(&self) -> bool {
        &&& self.start_position_buffer.spec_data().len() == self.instance_count
        &&& self.start_velocity_buffer.spec_data().len() == self.instance_count
        &&& self.start_position_buffer.spec_capacity() == self.context.max_buffer_elements
        &&& self.start_velocity_buffer.spec_capacity() == self.context.max_buffer_elements
        &&& self.context.max_buffer_elements <= u32::MAX
        &&& self.position_buffer.spec_data().len() >= 1
        &&& self.position_buffer.spec_data().len() <= self.context.max_buffer_elements
        &&& (match self.normal_buffer {
            Some(b) => b.spec_data().len() == self.position_buffer.spec_data().len(),
            None => true,
        })
        &&& (match self.uv_buffer {
            Some(b) => b.spec_data().len() == self.position_buffer.spec_data().len(),
            None => true,
        })
        &&& (match self.index_buffer {
            Some(b) => indices_in_bounds(
                b.spec_data(),
                self.position_buffer.spec_data().len() as int,
            ),
            None => true,
        })
        &&& self.normal_transformation == spec_normal_of(self.transformation)
    }

    /// A particle system is unbounded: particle extents cannot be bounded
    /// without simulating every instance, so the infinite sentinel is
    /// always reported.
    open spec fn spec_aabb(&self) -> AxisAlignedBoundingBox {
        AxisAlignedBoundingBox::Infinite
    }

    open spec fn spec_vertex_source(&self, fragment_source: FragmentSource) -> VertexSource {
        spec_vertex_shader_source(fragment_source)
    }

    open spec fn spec_render_outcome(
        &self,
        fragment_source: FragmentSource,
        uniforms: Result<(), RenderError>,
        render_states: RenderStates,
        camera: Camera,
    ) -> Result<DrawCommand, RenderError> {
        match uniforms {
            Err(e) => Err(e),
            Ok(()) => if fragment_source.input_uv && self.spec_uvs() is None {
                Err(RenderError::MissingAttribute(AttributeName::UvCoordinates))
            } else if fragment_source.input_normal && self.spec_normals() is None {
                Err(RenderError::MissingAttribute(AttributeName::Normal))
            } else {
                Ok(
                    DrawCommand {
                        render_states,
                        viewport: camera.spec_viewport(),
                        kind: match self.spec_indices() {
                            Some(idx) => DrawKind::ElementsInstanced {
                                element_count: idx.len() as usize,
                                width: self.spec_index_width()->Some_0,
                            },
                            None => DrawKind::ArraysInstanced {
                                vertex_count: self.spec_positions().len() as u32,
                            },
                        },
                        instance_count: self.spec_instance_count(),
                    },
                )
            },
        }
    }

    fn aabb(&self) -> (r: AxisAlignedBoundingBox) {
        AxisAlignedBoundingBox::Infinite
    }

}

impl<M: Material> RenderableWith<M> for Particles {
    fn render_with_material(&self, material: &M, camera: &Camera, lights: &[Light]) -> (r: Result<
        DrawCommand,
        RenderError,
    >) {
        let fragment_source = material.fragment_shader_source(false, lights);
        let vertex_source = Self::vertex_shader_source(&fragment_source);
        let mut program = self.context.program(vertex_source, fragment_source);
        match material.use_uniforms(&program, camera, lights) {
            Ok(()) => (),
            Err(e) => {
                return Err(e);
            },
        }
        program.use_uniform(
            UniformName::ModelMatrix,
            UniformValue::Matrix4(self.transformation),
        )?;
        program.use_uniform(UniformName::Acceleration, UniformValue::Vector3(self.acceleration))?;
        program.use_uniform(UniformName::Time, UniformValue::Scalar(self.time))?;
        program.use_uniform(UniformName::Projection, UniformValue::Matrix4(camera.projection()))?;
        program.use_uniform(UniformName::View, UniformValue::Matrix4(camera.view()))?;
        program.use_instance_attribute(
            AttributeName::StartPosition,
            &self.start_position_buffer,
        )?;
        program.use_instance_attribute(
            AttributeName::StartVelocity,
            &self.start_velocity_buffer,
        )?;
        if program.requires_attribute(AttributeName::Position) {
            program.use_vertex_attribute(AttributeName::Position, &self.position_buffer)?;
        }
        if program.requires_attribute(AttributeName::UvCoordinates) {
            match &self.uv_buffer {
                Some(uv_buffer) => {
                    program.use_vertex_attribute(AttributeName::UvCoordinates, uv_buffer)?;
                },
                None => {
                    return Err(RenderError::MissingAttribute(AttributeName::UvCoordinates));
                },
            }
        }
        if program.requires_attribute(AttributeName::Normal) {
            match &self.normal_buffer {
                Some(normal_buffer) => {
                    program.use_uniform(
                        UniformName::NormalMatrix,
                        UniformValue::Matrix4(self.normal_transformation),
                    )?;
                    program.use_vertex_attribute(AttributeName::Normal, normal_buffer)?;
                },
                None => {
                    return Err(RenderError::MissingAttribute(AttributeName::Normal));
                },
            }
        }
        proof {
            assert(program.spec_bound(AttributeName::StartPosition) == Some(
                self.start_position_buffer.spec_data().len() as usize,
            ));
            assert(program.spec_bound(AttributeName::StartVelocity) == Some(
                self.start_velocity_buffer.spec_data().len() as usize,
            ));
            assert(program.spec_bound(AttributeName::Position) == Some(
                self.position_buffer.spec_data().len() as usize,
            ));
            if program.vertex.pass_uv {
                assert(program.spec_bound(AttributeName::UvCoordinates) == Some(
                    self.uv_buffer->Some_0.spec_data().len() as usize,
                ));
            }
            if program.vertex.pass_normal {
                assert(program.spec_bound(AttributeName::Normal) == Some(
                    self.normal_buffer->Some_0.spec_data().len() as usize,
                ));
            }
        }
        match &self.index_buffer {
            Some(index_buffer) => Ok(
                program.draw_elements_instanced(
                    material.render_states(),
                    camera.viewport(),
                    index_buffer,
                    self.instance_count,
                ),
            ),
            None => Ok(
                program.draw_arrays_instanced(
                    material.render_states(),
                    camera.viewport(),
                    self.position_buffer.vertex_count() as u32,
                    self.instance_count,
                ),
            ),
        }
    }
}


/// The bounding-volume law: every particle system reports the infinite
/// sentinel, whatever its mesh, population or transformation state.
pub proof fn lemma_particles_aabb_infinite(particles: Particles)
    ensures
        particles.spec_aabb() == AxisAlignedBoundingBox::Infinite,
{
}

} // verus!
