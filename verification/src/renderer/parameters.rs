//! The descriptions that callers hand to the renderer.

use vstd::prelude::*;
use crate::types::FloatBits;

pub mod bitmap;
pub mod bsp;
pub mod geometry;
pub mod shader;
pub mod sky;

verus! {

/// A size in pixels.
#[derive(Copy, Clone, Debug, PartialEq, Eq)]
pub struct Resolution {
    pub width: u32,
    pub height: u32,
}

/// What a renderer is made with.
#[derive(Copy, Clone, Debug, PartialEq, Eq)]
pub struct RendererParameters {
    /// The size of the surface that frames are composed into.
    pub resolution: Resolution,
    /// How many viewports share the surface: 1 to 4.
    pub number_of_viewports: usize,
    /// Whether presentation waits for the display's refresh.
    pub vsync: bool,
    /// The level of anisotropic filtering for the samplers of opaque materials, if any.
    pub anisotropic_filtering: Option<FloatBits>,
}

} // verus!
