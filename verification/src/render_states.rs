//! Fixed-function state applied during a draw call.

use vstd::prelude::*;

verus! {

/// Blend configuration for a draw call.
#[derive(Clone, Copy, Debug, PartialEq, Eq, Structural)]
pub enum Blend {
    /// Source pixels overwrite destination pixels.
    Disabled,
    /// Standard source-alpha transparency blending.
    TransparencyBlend,
    /// Source pixels are added onto destination pixels.
    Add,
}

/// Depth-test configuration for a draw call.
#[derive(Clone, Copy, Debug, PartialEq, Eq, Structural)]
pub enum DepthTest {
    /// Every fragment passes.
    Always,
    /// A fragment passes when strictly nearer than the stored depth.
    Less,
    /// A fragment passes when nearer than or as near as the stored depth.
    LessOrEqual,
    /// No fragment passes.
    Never,
}

/// Face-culling configuration for a draw call.
#[derive(Clone, Copy, Debug, PartialEq, Eq, Structural)]
pub enum Cull {
    /// Both faces are drawn.
    Disabled,
    /// Back faces are skipped.
    Back,
    /// Front faces are skipped.
    Front,
}

/// The complete fixed-function state a material asks for during a draw.
#[derive(Clone, Copy, Debug, PartialEq, Eq, Structural)]
pub struct RenderStates {
    /// Blend configuration.
    pub blend: Blend,
    /// Depth-test configuration.
    pub depth_test: DepthTest,
    /// Face-culling configuration.
    pub cull: Cull,
}

/// The render states a plain opaque material uses.
pub open spec fn spec_default_render_states() -> RenderStates {
    RenderStates { blend: Blend::Disabled, depth_test: DepthTest::Less, cull: Cull::Disabled }
}

impl Default for RenderStates {
    /// Opaque defaults: no blending, nearer-wins depth test, no culling.
    fn default() -> (r: Self)
        ensures
            r == spec_default_render_states(),
    {
        RenderStates { blend: Blend::Disabled, depth_test: DepthTest::Less, cull: Cull::Disabled }
    }
}

} // verus!
