//! Shader sources, compiled programs, and draw-call dispatch.
//!
//! Shader source is modelled as its declared-capability set: the structured
//! record of which optional vertex attributes the fragment stage consumes
//! and the vertex stage passes through.  A program compiled from a pair of
//! sources declares exactly the attributes and uniforms those sources name;
//! binding a uniform the program does not declare is a hard error, and a
//! draw call requires every bound buffer to cover the elements it reads.

use vstd::prelude::*;
use crate::buffer::{Context, ElementBuffer, IndexWidth, InstanceBuffer, VertexBuffer};
use crate::camera::Viewport;
use crate::error::{AttributeName, RenderError, UniformName};
use crate::math::Vec3;
use crate::matrix::Mat4;
use crate::mesh::indices_in_bounds;
use crate::render_states::RenderStates;

verus! {

/// The capability set a fragment shader source declares: which varyings it
/// consumes from the vertex stage.
#[derive(Clone, Copy, Debug, PartialEq, Eq, Structural)]
pub struct FragmentSource {
    /// The fragment stage reads the interpolated world position.
    pub input_position: bool,
    /// The fragment stage reads the interpolated normal.
    pub input_normal: bool,
    /// The fragment stage reads the interpolated texture coordinates.
    pub input_uv: bool,
}

/// The capability set of a generated vertex shader source: which optional
/// outputs it passes through to the fragment stage.  The particle motion
/// inputs (start position, start velocity, mesh position) and the camera and
/// motion uniforms are always declared.
#[derive(Clone, Copy, Debug, PartialEq, Eq, Structural)]
pub struct VertexSource {
    /// The vertex stage outputs the world position.
    pub pass_position: bool,
    /// The vertex stage reads a normal attribute and outputs it transformed.
    pub pass_normal: bool,
    /// The vertex stage reads a texture-coordinate attribute and passes it
    /// through.
    pub pass_uv: bool,
}

/// A value bound to a uniform slot.
#[derive(Clone, Copy, Debug, PartialEq, Eq, Structural)]
pub enum UniformValue {
    /// A fixed-point scalar.
    Scalar(i64),
    /// A fixed-point three-component vector.
    Vector3(Vec3),
    /// A fixed-point 4x4 matrix.
    Matrix4(Mat4),
}

/// A compiled shader program together with the attribute bindings made on
/// it.  A bound attribute slot records how many elements the bound buffer
/// holds; a draw call may not read past them.
#[derive(Clone, Copy, Debug, PartialEq, Eq, Structural)]
pub struct Program {
    /// The vertex-stage capability set the program was compiled from.
    pub vertex: VertexSource,
    /// The fragment-stage capability set the program was compiled from.
    pub fragment: FragmentSource,
    /// Element count of the buffer bound to the mesh-position attribute.
    pub bound_position: Option<usize>,
    /// Element count of the buffer bound to the normal attribute.
    pub bound_normal: Option<usize>,
    /// Element count of the buffer bound to the texture-coordinate attribute.
    pub bound_uv: Option<usize>,
    /// Element count of the buffer bound to the start-position attribute.
    pub bound_start_position: Option<usize>,
    /// Element count of the buffer bound to the start-velocity attribute.
    pub bound_start_velocity: Option<usize>,
}

/// A freshly compiled program: sources recorded, nothing bound yet.
pub open spec fn spec_new_program(vertex: VertexSource, fragment: FragmentSource) -> Program {
    Program {
        vertex,
        fragment,
        bound_position: None,
        bound_normal: None,
        bound_uv: None,
        bound_start_position: None,
        bound_start_velocity: None,
    }
}

impl Context {
    /// Compiles (or retrieves from the source-keyed cache, which behaves
    /// identically) the program for a pair of shader sources.
    pub fn program(&self, vertex: VertexSource, fragment: FragmentSource) -> (r: Program)
        ensures
            r == spec_new_program(vertex, fragment),
    {
        Program {
            vertex,
            fragment,
            bound_position: None,
            bound_normal: None,
            bound_uv: None,
            bound_start_position: None,
            bound_start_velocity: None,
        }
    }
}

impl Program {
    /// Whether the program's vertex stage declares (and so requires) the
    /// attribute.  The particle motion attributes and the mesh position are
    /// always declared; normal and texture-coordinate attributes only when
    /// the fragment source asked for them.
    pub open spec fn spec_requires_attribute(self, name: AttributeName) -> bool {
        match name {
            AttributeName::Position => true,
            AttributeName::StartPosition => true,
            AttributeName::StartVelocity => true,
            AttributeName::Normal => self.vertex.pass_normal,
            AttributeName::UvCoordinates => self.vertex.pass_uv,
        }
    }

    /// Whether the program declares the uniform.  The camera and motion
    /// uniforms are always declared; the normal matrix only when the vertex
    /// stage transforms normals.
    pub open spec fn spec_declares_uniform(self, name: UniformName) -> bool {
        match name {
            UniformName::View => true,
            UniformName::Projection => true,
            UniformName::Time => true,
            UniformName::Acceleration => true,
            UniformName::ModelMatrix => true,
            UniformName::NormalMatrix => self.vertex.pass_normal,
        }
    }

    /// The element count recorded for an attribute slot.
    pub open spec fn spec_bound(self, name: AttributeName) -> Option<usize> {
        match name {
            AttributeName::Position => self.bound_position,
            AttributeName::Normal => self.bound_normal,
            AttributeName::UvCoordinates => self.bound_uv,
            AttributeName::StartPosition => self.bound_start_position,
            AttributeName::StartVelocity => self.bound_start_velocity,
        }
    }

    /// Both per-instance slots are bound and cover `n` instances.
    pub open spec fn spec_ready_for_instances(self, n: int) -> bool {
        &&& (self.bound_start_position matches Some(c) && c >= n)
        &&& (self.bound_start_velocity matches Some(c) && c >= n)
    }

    /// Every vertex attribute the program requires is bound and covers
    /// `need` vertices.
    pub open spec fn spec_vertex_slots_cover(self, need: int) -> bool {
        &&& (self.bound_position matches Some(c) && c >= need)
        &&& self.vertex.pass_normal ==> (self.bound_normal matches Some(c) && c >= need)
        &&& self.vertex.pass_uv ==> (self.bound_uv matches Some(c) && c >= need)
    }

    /// Every vertex attribute the program requires is bound, and every
    /// index in `idx` points below its element count.
    pub open spec fn spec_indices_covered(self, idx: Seq<u32>) -> bool {
        &&& (self.bound_position matches Some(c) && indices_in_bounds(idx, c as int))
        &&& self.vertex.pass_normal ==> (self.bound_normal matches Some(c) && indices_in_bounds(
            idx,
            c as int,
        ))
        &&& self.vertex.pass_uv ==> (self.bound_uv matches Some(c) && indices_in_bounds(
            idx,
            c as int,
        ))
    }

    /// Queries whether the compiled program requires an attribute.
    pub fn requires_attribute(&self, name: AttributeName) -> (r: bool)
        ensures
            r == self.spec_requires_attribute(name),
    {
        match name {
            AttributeName::Position => true,
            AttributeName::StartPosition => true,
            AttributeName::StartVelocity => true,
            AttributeName::Normal => self.vertex.pass_normal,
            AttributeName::UvCoordinates => self.vertex.pass_uv,
        }
    }

    /// Sets a uniform value on the program.  Fails exactly when the program
    /// does not declare the uniform: a programmer or shader-source mismatch,
    /// surfaced as a hard error, never silently ignored.
    pub fn use_uniform(&self, name: UniformName, value: UniformValue) -> (r: Result<
        (),
        RenderError,
    >)
        ensures
            self.spec_declares_uniform(name) ==> r == Ok::<(), RenderError>(()),
            !self.spec_declares_uniform(name) ==> r == Err::<(), RenderError>(
                RenderError::UniformMismatch(name),
            ),
    {
        let declared = match name {
            UniformName::View => true,
            UniformName::Projection => true,
            UniformName::Time => true,
            UniformName::Acceleration => true,
            UniformName::ModelMatrix => true,
            UniformName::NormalMatrix => self.vertex.pass_normal,
        };
        if declared {
            let _ = value;
            Ok(())
        } else {
            Err(RenderError::UniformMismatch(name))
        }
    }

    /// Binds a per-vertex buffer to an attribute slot.  Fails exactly when
    /// the program does not declare the attribute.
    pub fn use_vertex_attribute<T: Copy>(
        &mut self,
        name: AttributeName,
        buffer: &VertexBuffer<T>,
    ) -> (r: Result<(), RenderError>)
        ensures
            final(self).vertex == old(self).vertex,
            final(self).fragment == old(self).fragment,
            old(self).spec_requires_attribute(name) ==> ({
                &&& r == Ok::<(), RenderError>(())
                &&& final(self).spec_bound(name) == Some(buffer.spec_data().len() as usize)
            }),
            !old(self).spec_requires_attribute(name) ==> ({
                &&& r == Err::<(), RenderError>(RenderError::MissingAttribute(name))
                &&& *final(self) == *old(self)
            }),
            forall|other: AttributeName|
                other != name ==> #[trigger] final(self).spec_bound(other) == old(self).spec_bound(
                    other,
                ),
    {
        if !self.requires_attribute(name) {
            return Err(RenderError::MissingAttribute(name));
        }
        let count = buffer.vertex_count();
        match name {
            AttributeName::Position => {
                self.bound_position = Some(count);
            },
            AttributeName::Normal => {
                self.bound_normal = Some(count);
            },
            AttributeName::UvCoordinates => {
                self.bound_uv = Some(count);
            },
            AttributeName::StartPosition => {
                self.bound_start_position = Some(count);
            },
            AttributeName::StartVelocity => {
                self.bound_start_velocity = Some(count);
            },
        }
        Ok(())
    }

    /// Binds a per-instance buffer to an attribute slot.  Fails exactly
    /// when the program does not declare the attribute.
    pub fn use_instance_attribute<T: Copy>(
        &mut self,
        name: AttributeName,
        buffer: &InstanceBuffer<T>,
    ) -> (r: Result<(), RenderError>)
        ensures
            final(self).vertex == old(self).vertex,
            final(self).fragment == old(self).fragment,
            old(self).spec_requires_attribute(name) ==> ({
                &&& r == Ok::<(), RenderError>(())
                &&& final(self).spec_bound(name) == Some(buffer.spec_data().len() as usize)
            }),
            !old(self).spec_requires_attribute(name) ==> ({
                &&& r == Err::<(), RenderError>(RenderError::MissingAttribute(name))
                &&& *final(self) == *old(self)
            }),
            forall|other: AttributeName|
                other != name ==> #[trigger] final(self).spec_bound(other) == old(self).spec_bound(
                    other,
                ),
    {
        if !self.requires_attribute(name) {
            return Err(RenderError::MissingAttribute(name));
        }
        let count = buffer.instance_count();
        match name {
            AttributeName::Position => {
                self.bound_position = Some(count);
            },
            AttributeName::Normal => {
                self.bound_normal = Some(count);
            },
            AttributeName::UvCoordinates => {
                self.bound_uv = Some(count);
            },
            AttributeName::StartPosition => {
                self.bound_start_position = Some(count);
            },
            AttributeName::StartVelocity => {
                self.bound_start_velocity = Some(count);
            },
        }
        Ok(())
    }
}

/// The kind of draw a command issues.
#[derive(Clone, Copy, Debug, PartialEq, Eq, Structural)]
pub enum DrawKind {
    /// An instanced indexed draw: the index buffer supplies the vertices.
    ElementsInstanced {
        /// Number of indices read.
        element_count: usize,
        /// Width the indices were uploaded with.
        width: IndexWidth,
    },
    /// An instanced non-indexed draw over the first vertices of each bound
    /// vertex buffer.
    ArraysInstanced {
        /// Number of vertices read.
        vertex_count: u32,
    },
}

/// One draw call, fully described: what the renderer hands the device for
/// one object in one frame.
#[derive(Clone, Copy, Debug, PartialEq, Eq, Structural)]
pub struct DrawCommand {
    /// Fixed-function state applied for the draw.
    pub render_states: RenderStates,
    /// Screen rectangle drawn into.
    pub viewport: Viewport,
    /// Indexed or non-indexed dispatch, with its vertex count.
    pub kind: DrawKind,
    /// Number of instances drawn.
    pub instance_count: u32,
}

impl Program {
    /// Issues an instanced indexed draw.  Requires every index to point
    /// inside the bound vertex buffers and the instance buffers to cover
    /// the instance count: a draw never reads past an allocation.
    pub fn draw_elements_instanced(
        &self,
        render_states: RenderStates,
        viewport: Viewport,
        elements: &ElementBuffer,
        instance_count: u32,
    ) -> (r: DrawCommand)
        requires
            self.spec_ready_for_instances(instance_count as int),
            self.spec_indices_covered(elements.spec_data()),
        ensures
            r == (DrawCommand {
                render_states,
                viewport,
                kind: DrawKind::ElementsInstanced {
                    element_count: elements.spec_data().len() as usize,
                    width: elements.spec_width(),
                },
                instance_count,
            }),
    {
        DrawCommand {
            render_states,
            viewport,
            kind: DrawKind::ElementsInstanced {
                element_count: elements.count(),
                width: elements.width(),
            },
            instance_count,
        }
    }

    /// Issues an instanced non-indexed draw.  Requires the bound vertex
    /// buffers to cover the vertex count and the instance buffers to cover
    /// the instance count: a draw never reads past an allocation.
    pub fn draw_arrays_instanced(
        &self,
        render_states: RenderStates,
        viewport: Viewport,
        count: u32,
        instance_count: u32,
    ) -> (r: DrawCommand)
        requires
            self.spec_ready_for_instances(instance_count as int),
            self.spec_vertex_slots_cover(count as int),
        ensures
            r == (DrawCommand {
                render_states,
                viewport,
                kind: DrawKind::ArraysInstanced { vertex_count: count },
                instance_count,
            }),
    {
        DrawCommand {
            render_states,
            viewport,
            kind: DrawKind::ArraysInstanced { vertex_count: count },
            instance_count,
        }
    }
}

} // verus!
