//! The material capability and a concrete debug material.
//!
//! A material produces fragment shader source (modelled as its declared
//! capability set), binds its uniforms on a compiled program, and carries
//! the fixed-function render states and the transparency flag used for
//! draw-order partitioning.

use vstd::prelude::*;
use crate::buffer::Context;
use crate::camera::{Camera, Light};
use crate::error::RenderError;
use crate::program::{FragmentSource, Program};
use crate::render_states::{spec_default_render_states, RenderStates};

verus! {

/// An RGBA colour with eight bits per channel.
#[derive(Clone, Copy, Debug, PartialEq, Eq, Structural)]
pub struct Color {
    /// Red channel.
    pub r: u8,
    /// Green channel.
    pub g: u8,
    /// Blue channel.
    pub b: u8,
    /// Alpha channel.
    pub a: u8,
}

/// A CPU-side material description, as an asset loader hands it over.
#[derive(Clone, Copy, Debug, PartialEq, Eq, Structural)]
pub struct CpuMaterial {
    /// Base surface colour.
    pub albedo: Color,
}

/// The material capability: every material variant produces fragment shader
/// source as a pure function of its state and the active lights, binds its
/// uniforms, and reports its render states and transparency.
pub trait Material: Sized {
    /// The capability set of the fragment shader source this material
    /// generates for the given light set.
    spec fn spec_fragment_source(&self, use_vertex_colors: bool, lights: Seq<Light>) -> FragmentSource;

    /// The outcome of binding this material's uniforms on a program.
    spec fn spec_use_uniforms(&self, program: Program, camera: Camera, lights: Seq<Light>) -> Result<
        (),
        RenderError,
    >;

    /// The fixed-function state this material draws with.
    spec fn spec_render_states(&self) -> RenderStates;

    /// Whether this material needs the transparent render pass.
    spec fn spec_is_transparent(&self) -> bool;

    /// Generates the fragment shader source for the given light set.
    fn fragment_shader_source(&self, use_vertex_colors: bool, lights: &[Light]) -> (r:
        FragmentSource)
        ensures
            r == self.spec_fragment_source(use_vertex_colors, lights@),
    ;

    /// Binds this material's uniform values on the program.  Fails exactly
    /// when the program does not declare a uniform the material sets.
    fn use_uniforms(&self, program: &Program, camera: &Camera, lights: &[Light]) -> (r: Result<
        (),
        RenderError,
    >)
        ensures
            r == self.spec_use_uniforms(*program, *camera, lights@),
    ;

    /// Returns the fixed-function state this material draws with.
    fn render_states(&self) -> (r: RenderStates)
        ensures
            r == self.spec_render_states(),
    ;

    /// Returns whether this material needs the transparent render pass.
    fn is_transparent(&self) -> (r: bool)
        ensures
            r == self.spec_is_transparent(),
    ;
}

/// Construction of a material from a CPU-side description.
pub trait FromCpuMaterial: Sized {
    /// The material this description builds.
    spec fn spec_from_cpu_material(context: Context, cpu_material: CpuMaterial) -> Result<
        Self,
        RenderError,
    >;

    /// Builds the material from a CPU-side description.
    fn from_cpu_material(context: &Context, cpu_material: &CpuMaterial) -> (r: Result<
        Self,
        RenderError,
    >)
        ensures
            r == Self::spec_from_cpu_material(*context, *cpu_material),
    ;
}

/// Renders a surface with colours that reflect its texture coordinates,
/// primarily for debugging: the u coordinate maps to the red channel and
/// the v coordinate to the green channel.  Its fragment source therefore
/// consumes the interpolated texture coordinates and nothing else.
#[derive(Clone, Copy)]
pub struct UVMaterial {
    /// Fixed-function state for the draw call.
    pub render_states: RenderStates,
}

/// The capability set of the texture-coordinate debug fragment shader: it
/// reads the interpolated texture coordinates only.
pub open spec fn spec_uv_fragment_source() -> FragmentSource {
    FragmentSource { input_position: false, input_normal: false, input_uv: true }
}

impl Default for UVMaterial {
    /// A texture-coordinate debug material with default render states.
    fn default() -> (r: Self)
        ensures
            r.render_states == spec_default_render_states(),
    {
        UVMaterial { render_states: RenderStates::default() }
    }
}

impl FromCpuMaterial for UVMaterial {
    open spec fn spec_from_cpu_material(context: Context, cpu_material: CpuMaterial) -> Result<
        Self,
        RenderError,
    > {
        Ok(UVMaterial { render_states: spec_default_render_states() })
    }

    /// The debug material ignores the description: it always succeeds with
    /// default render states.
    fn from_cpu_material(context: &Context, cpu_material: &CpuMaterial) -> (r: Result<
        Self,
        RenderError,
    >) {
        Ok(UVMaterial::default())
    }
}

impl Material for UVMaterial {
    open spec fn spec_fragment_source(&self, use_vertex_colors: bool, lights: Seq<Light>) -> FragmentSource {
        spec_uv_fragment_source()
    }

    open spec fn spec_use_uniforms(&self, program: Program, camera: Camera, lights: Seq<Light>) -> Result<
        (),
        RenderError,
    > {
        Ok(())
    }

    open spec fn spec_render_states(&self) -> RenderStates {
        self.render_states
    }

    open spec fn spec_is_transparent(&self) -> bool {
        false
    }

    /// The generated source is independent of the lights and of vertex
    /// colours: it reads the interpolated texture coordinates only.
    fn fragment_shader_source(&self, use_vertex_colors: bool, lights: &[Light]) -> (r:
        FragmentSource) {
        FragmentSource { input_position: false, input_normal: false, input_uv: true }
    }

    /// The debug material sets no uniforms, so binding always succeeds.
    fn use_uniforms(&self, program: &Program, camera: &Camera, lights: &[Light]) -> (r: Result<
        (),
        RenderError,
    >) {
        Ok(())
    }

    fn render_states(&self) -> (r: RenderStates) {
        self.render_states
    }

    fn is_transparent(&self) -> (r: bool) {
        false
    }
}

} // verus!
