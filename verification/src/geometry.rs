//! The geometry capability and the bounding-volume type.

use vstd::prelude::*;
use crate::camera::{Camera, Light};
use crate::error::RenderError;
use crate::material::Material;
use crate::math::Vec3;
use crate::program::{spec_new_program, DrawCommand, FragmentSource, VertexSource};
use crate::render_states::RenderStates;

verus! {

/// An axis-aligned bounding box, with a designated infinite sentinel for
/// geometry without a finite bound.  Callers must treat the sentinel
/// specially in culling logic rather than apply numeric tests.
#[derive(Clone, Copy, Debug, PartialEq, Eq, Structural)]
pub enum AxisAlignedBoundingBox {
    /// Unbounded extent.
    Infinite,
    /// A finite box between two corners.
    Finite {
        /// Componentwise least corner.
        min: Vec3,
        /// Componentwise greatest corner.
        max: Vec3,
    },
}

/// The geometry capability: a geometry reports a bounding volume and draws
/// itself with any externally supplied material (which may differ from any
/// material the owner pairs it with, enabling material override).
///
/// The draw pipeline is fixed: the material generates the fragment source
/// for the light set; the geometry generates the matching vertex source
/// ([`Geometry::spec_vertex_source`]); the program compiled from the pair
/// receives the material's uniforms; and the geometry then decides the
/// outcome ([`Geometry::spec_render_outcome`]): the draw call issued, or
/// the error that stopped it.
pub trait Geometry: Sized {
    /// The geometry's internal consistency: buffer lengths agree and the
    /// cached derived state is up to date.
    spec fn spec_wf(&self) -> bool;

    /// The bounding volume the geometry reports.
    spec fn spec_aabb(&self) -> AxisAlignedBoundingBox;

    /// The capability set of the vertex shader source this geometry
    /// generates to pair with a fragment source.
    spec fn spec_vertex_source(&self, fragment_source: FragmentSource) -> VertexSource;

    /// The outcome of drawing this geometry once the material has produced
    /// `fragment_source`, binding the material's uniforms has ended in
    /// `uniforms`, and the material draws with `render_states`.
    spec fn spec_render_outcome(
        &self,
        fragment_source: FragmentSource,
        uniforms: Result<(), RenderError>,
        render_states: RenderStates,
        camera: Camera,
    ) -> Result<DrawCommand, RenderError>;

    /// Returns the bounding volume.
    fn aabb(&self) -> (r: AxisAlignedBoundingBox)
        ensures
            r == self.spec_aabb(),
    ;
}

/// The draw half of the geometry capability: a geometry that can draw
/// itself with a material of type `M`.  A geometry implements it for every
/// material type, so the supplied material may differ from any material the
/// owner pairs it with.
pub trait RenderableWith<M: Material>: Geometry {
    /// Draws the geometry with an externally supplied material: compiles
    /// the program for the generated shader sources, binds uniforms and the
    /// attributes the program requires, and issues one draw call.
    fn render_with_material(&self, material: &M, camera: &Camera, lights: &[Light]) -> (r: Result<
        DrawCommand,
        RenderError,
    >)
        requires
            self.spec_wf(),
        ensures
            r == self.spec_render_outcome(
                material.spec_fragment_source(false, lights@),
                material.spec_use_uniforms(
                    spec_new_program(
                        self.spec_vertex_source(material.spec_fragment_source(false, lights@)),
                        material.spec_fragment_source(false, lights@),
                    ),
                    *camera,
                    lights@,
                ),
                material.spec_render_states(),
                *camera,
            ),
    ;
}

} // verus!
