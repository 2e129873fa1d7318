//! Verified core of a small real-time rendering engine.
//!
//! The crate models the composition layer of a renderer: geometry and
//! material capabilities, a generic geometry-material combinator, and a
//! particle-effect geometry with instanced draw dispatch.  All scalar
//! quantities are fixed-point numbers with [`math::SCALE`] steps per world
//! unit, so every computation is exact integer arithmetic with a proved
//! absence of overflow.

pub mod buffer;
pub mod camera;
pub mod error;
pub mod geometry;
pub mod gm;
pub mod material;
pub mod math;
pub mod particles;
pub mod matrix;
pub mod mesh;
pub mod program;
pub mod render_states;
