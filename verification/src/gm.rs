//! The geometry-material combinator and the renderable-object capability.

use vstd::prelude::*;
use crate::camera::{Camera, Light};
use crate::error::RenderError;
use crate::geometry::{AxisAlignedBoundingBox, Geometry, RenderableWith};
use crate::material::Material;
use crate::program::{spec_new_program, DrawCommand, FragmentSource, VertexSource};
use crate::render_states::RenderStates;

verus! {

/// The renderable-object capability: anything a render pass can draw with
/// its internally owned material, exposing the transparency flag the pass
/// uses to partition the draw order, opaque first, transparent last.
pub trait Object: Geometry {
    /// The outcome of drawing this object with its own material.
    spec fn spec_object_render(&self, camera: Camera, lights: Seq<Light>) -> Result<
        DrawCommand,
        RenderError,
    >;

    /// Whether this object must be drawn in the transparent pass.
    spec fn spec_object_is_transparent(&self) -> bool;

    /// Draws the object with its own material.
    fn render(&self, camera: &Camera, lights: &[Light]) -> (r: Result<DrawCommand, RenderError>)
        requires
            self.spec_wf(),
        ensures
            r == self.spec_object_render(*camera, lights@),
    ;

    /// Returns whether the object must be drawn in the transparent pass.
    fn is_transparent(&self) -> (r: bool)
        ensures
            r == self.spec_object_is_transparent(),
    ;
}

/// A combination of a geometry and a material which implements [`Object`].
/// Use this to combine any geometry and any material into an object a
/// render pass can draw.  The only requirement is that the geometry can
/// supply every per-vertex datum the material's shader consumes.
///
/// The pair is pure structural composition: the combinator holds no state
/// of its own, forwards geometry queries to the owned geometry, and renders
/// with the owned material.  Both fields are public, so geometry-specific
/// settings can be read and mutated in place.
pub struct Gm<G: Geometry, M: Material> {
    /// The geometry.
    pub geometry: G,
    /// The material applied to the geometry.
    pub material: M,
}

impl<G: Geometry, M: Material> Gm<G, M> {
    /// Creates a new combinator from a geometry and a material.
    pub fn new(geometry: G, material: M) -> (r: Self)
        ensures
            r.geometry == geometry,
            r.material == material,
    {
        Gm { geometry, material }
    }
}

impl<G: Geometry + Clone, M: Material + Clone> Clone for Gm<G, M> {
    /// Clones geometry and material together.
    fn clone(&self) -> Self {
        Gm { geometry: self.geometry.clone(), material: self.material.clone() }
    }
}

impl<G: Geometry, M: Material> Geometry for Gm<G, M> {
    /// The combinator is consistent exactly when its geometry is.
    open spec fn spec_wf(&self) -> bool {
        self.geometry.spec_wf()
    }

    /// The bounding volume of the owned geometry.
    open spec fn spec_aabb(&self) -> AxisAlignedBoundingBox {
        self.geometry.spec_aabb()
    }

    open spec fn spec_vertex_source(&self, fragment_source: FragmentSource) -> VertexSource {
        self.geometry.spec_vertex_source(fragment_source)
    }

    open spec fn spec_render_outcome(
        &self,
        fragment_source: FragmentSource,
        uniforms: Result<(), RenderError>,
        render_states: RenderStates,
        camera: Camera,
    ) -> Result<DrawCommand, RenderError> {
        self.geometry.spec_render_outcome(fragment_source, uniforms, render_states, camera)
    }

    fn aabb(&self) -> (r: AxisAlignedBoundingBox) {
        self.geometry.aabb()
    }
}

impl<G: Geometry + RenderableWith<M2>, M: Material, M2: Material> RenderableWith<M2> for Gm<G, M> {
    fn render_with_material(&self, material: &M2, camera: &Camera, lights: &[Light]) -> (r: Result<
        DrawCommand,
        RenderError,
    >) {
        let r = self.geometry.render_with_material(material, camera, lights);
        r
    }
}

impl<G: RenderableWith<M>, M: Material> Object for Gm<G, M> {
    /// Rendering the combinator draws the owned geometry with the owned
    /// material.
    open spec fn spec_object_render(&self, camera: Camera, lights: Seq<Light>) -> Result<
        DrawCommand,
        RenderError,
    > {
        let fragment_source = self.material.spec_fragment_source(false, lights);
        let program = spec_new_program(
            self.geometry.spec_vertex_source(fragment_source),
            fragment_source,
        );
        self.geometry.spec_render_outcome(
            fragment_source,
            self.material.spec_use_uniforms(program, camera, lights),
            self.material.spec_render_states(),
            camera,
        )
    }

    /// The combinator is transparent exactly when its owned material is,
    /// whatever the material's current state: the flag is read through at
    /// call time, also after the material was mutated in place.
    open spec fn spec_object_is_transparent(&self) -> bool {
        self.material.spec_is_transparent()
    }

    fn render(&self, camera: &Camera, lights: &[Light]) -> (r: Result<DrawCommand, RenderError>) {
        self.render_with_material(&self.material, camera, lights)
    }

    fn is_transparent(&self) -> (r: bool) {
        self.material.is_transparent()
    }
}

/// The transparency law: a combinator reports exactly its owned material's
/// transparency, for every geometry, every material variant, and every
/// material state.
pub proof fn lemma_gm_transparency<G: RenderableWith<M>, M: Material>(gm: Gm<G, M>)
    ensures
        gm.spec_object_is_transparent() == gm.material.spec_is_transparent(),
{
}

} // verus!
