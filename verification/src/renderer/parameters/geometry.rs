//! What a caller hands over to add a geometry, and when it is acceptable.

use vstd::prelude::*;
use crate::error::{Error, MResult};
use crate::renderer::data::{Geometry, Registry};
use crate::renderer::Renderer;
use crate::vertex::{LightmapVertex, ModelTriangle, ModelVertex};

verus! {

/// A geometry to add.
#[derive(Clone, Debug, PartialEq, Eq)]
pub struct AddGeometryParameter {
    pub vertices: Vec<ModelVertex>,
    /// Must be `None` or as long as `vertices`.
    pub lightmap_vertices: Option<Vec<LightmapVertex>>,
    /// Triangles over `vertices`.
    pub indices: Vec<ModelTriangle>,
    /// The sub-bitmap of a lightmap bitmap that lights the geometry.
    pub lightmap_index: Option<usize>,
    /// The path of the shader; it must be loaded already.
    pub shader: String,
}

impl AddGeometryParameter {
    /// The shader is loaded in `registry`, lightmap coordinates come one for
    /// each vertex, and every triangle stays within the vertices.
    pub open spec fn valid(&self, registry: Registry) -> bool {
        &&& Geometry::from_parameters(*self).resolves(registry.shaders)
        &&& Geometry::from_parameters(*self).lightmap_parity()
        &&& Geometry::from_parameters(*self).indices_within()
    }

    /// Accepts the geometry exactly when it is [`valid`](Self::valid).
    pub fn validate(&self, renderer: &Renderer) -> (result: MResult<()>)
        requires
            renderer.wf(),
        ensures
            result is Ok <==> self.valid(renderer.registry()),
            result is Err ==> result == Err::<(), Error>(Error::InvalidData),
    {
        if !renderer.has_shader(self.shader.as_str()) {
            return Err(Error::InvalidData);
        }
        let vertex_count = self.vertices.len();
        match &self.lightmap_vertices {
            Some(lightmap_vertices) => {
                if lightmap_vertices.len() != vertex_count {
                    return Err(Error::InvalidData);
                }
            },
            None => {},
        }
        let mut i: usize = 0;
        while i < self.indices.len()
            invariant
                i <= self.indices@.len(),
                vertex_count == self.vertices@.len(),
                forall|k: int|
                    0 <= k < i ==> (#[trigger] self.indices@[k]).within(self.vertices@.len()),
            decreases self.indices@.len() - i,
        {
            if !self.indices[i].is_within(vertex_count) {
                assert(!Geometry::from_parameters(*self).indices@[i as int].within(
                    self.vertices@.len(),
                ));
                return Err(Error::InvalidData);
            }
            i = i + 1;
        }
        Ok(())
    }
}

} // verus!
