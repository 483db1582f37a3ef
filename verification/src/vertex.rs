//! Vertex and triangle records as the renderer takes them from its callers.

use vstd::prelude::*;
use crate::types::FloatBits;

verus! {

/// One vertex of a model, with the frame that its shader shades it in.
#[derive(Copy, Clone, Debug, PartialEq, Eq)]
pub struct ModelVertex {
    pub position: [FloatBits; 3],
    pub normal: [FloatBits; 3],
    pub binormal: [FloatBits; 3],
    pub tangent: [FloatBits; 3],
    pub texture_coords: [FloatBits; 2],
}

/// Where one vertex samples the lightmap.
#[derive(Copy, Clone, Debug, PartialEq, Eq)]
pub struct LightmapVertex {
    pub lightmap_texture_coords: [FloatBits; 2],
}

/// One triangle, as three indices into a vertex buffer.
#[derive(Copy, Clone, Debug, PartialEq, Eq)]
pub struct ModelTriangle {
    pub indices: [u16; 3],
}

impl ModelTriangle {
    /// Whether all three corners name a vertex of a buffer of `vertex_count` vertices.
    pub open spec fn within(self, vertex_count: nat) -> bool {
        &&& (self.indices[0] as nat) < vertex_count
        &&& (self.indices[1] as nat) < vertex_count
        &&& (self.indices[2] as nat) < vertex_count
    }

    /// Tests [`ModelTriangle::within`].
    pub fn is_within(&self, vertex_count: usize) -> (b: bool)
        ensures
            b == self.within(vertex_count as nat),
    {
        (self.indices[0] as usize) < vertex_count && (self.indices[1] as usize) < vertex_count
            && (self.indices[2] as usize) < vertex_count
    }
}

} // verus!
