//! The camera and light boundaries: plain values consumed as uniforms.

use vstd::prelude::*;
use crate::math::Vec3;
use crate::matrix::Mat4;

verus! {

/// The screen-space rectangle a draw call covers.
#[derive(Clone, Copy, Debug, PartialEq, Eq, Structural)]
pub struct Viewport {
    /// Left edge in pixels.
    pub x: i32,
    /// Bottom edge in pixels.
    pub y: i32,
    /// Width in pixels.
    pub width: u32,
    /// Height in pixels.
    pub height: u32,
}

/// A camera: the view and projection matrices and the viewport consumed as
/// per-frame uniforms.
#[derive(Clone, Copy, Debug, PartialEq, Eq, Structural)]
pub struct Camera {
    view: Mat4,
    projection: Mat4,
    viewport: Viewport,
}

impl Camera {
    /// The view matrix.
    pub closed spec fn spec_view(self) -> Mat4 {
        self.view
    }

    /// The projection matrix.
    pub closed spec fn spec_projection(self) -> Mat4 {
        self.projection
    }

    /// The viewport.
    pub closed spec fn spec_viewport(self) -> Viewport {
        self.viewport
    }

    /// Builds a camera from its view matrix, projection matrix and viewport.
    pub fn new(view: Mat4, projection: Mat4, viewport: Viewport) -> (r: Self)
        ensures
            r.spec_view() == view,
            r.spec_projection() == projection,
            r.spec_viewport() == viewport,
    {
        Camera { view, projection, viewport }
    }

    /// Returns the view matrix.
    pub fn view(&self) -> (r: Mat4)
        ensures
            r == self.spec_view(),
    {
        self.view
    }

    /// Returns the projection matrix.
    pub fn projection(&self) -> (r: Mat4)
        ensures
            r == self.spec_projection(),
    {
        self.projection
    }

    /// Returns the viewport.
    pub fn viewport(&self) -> (r: Viewport)
        ensures
            r == self.spec_viewport(),
    {
        self.viewport
    }
}

/// A light in the scene.  Its uniform contribution is consumed through a
/// material; the geometry passes lights through untouched.
#[derive(Clone, Copy, Debug, PartialEq, Eq, Structural)]
pub enum Light {
    /// Light arriving evenly from every direction.
    Ambient {
        /// Fixed-point intensity.
        intensity: i64,
    },
    /// Light arriving from one direction.
    Directional {
        /// Fixed-point intensity.
        intensity: i64,
        /// Direction the light travels, as a fixed-point vector.
        direction: Vec3,
    },
}

} // verus!
