//! What a caller hands over to add a BSP, and when it is acceptable.

use vstd::prelude::*;
use crate::error::{Error, MResult};
use crate::renderer::data::Registry;
use crate::renderer::Renderer;
use crate::vertex::{LightmapVertex, ModelTriangle, ModelVertex};

verus! {

/// A BSP to add.
#[derive(Clone, Debug, PartialEq, Eq)]
pub struct AddBSPParameter {
    /// Path to the bitmap that holds the lightmaps.
    ///
    /// If `Some`, this bitmap must be loaded already.
    pub lightmap_bitmap: Option<String>,
    /// All geometries of the BSP, grouped by the lightmap that lights them.
    pub lightmap_sets: Vec<AddBSPParameterLightmapSet>,
    /// The regions of the BSP.
    pub clusters: Vec<AddBSPParameterCluster>,
}

/// The geometries that one lightmap lights.
#[derive(Clone, Debug, PartialEq, Eq)]
pub struct AddBSPParameterLightmapSet {
    /// The sub-bitmap of the lightmap bitmap that lights the set.
    ///
    /// This cannot be `Some` if the BSP has no lightmap bitmap. It is an
    /// index of a sub-bitmap, not of a sequence.
    pub lightmap_index: Option<usize>,
    /// The materials of the set; each becomes one geometry.
    pub materials: Vec<AddBSPParameterLightmapMaterial>,
}

/// One material of a lightmap set.
#[derive(Clone, Debug, PartialEq, Eq)]
pub struct AddBSPParameterLightmapMaterial {
    pub shader_vertices: Vec<ModelVertex>,
    /// Must be `None` or as long as `shader_vertices`.
    pub lightmap_vertices: Option<Vec<LightmapVertex>>,
    /// Triangles over `shader_vertices`.
    pub indices: Vec<ModelTriangle>,
    /// The path of the shader; it must be loaded already.
    pub shader: String,
}

/// One region of a BSP.
#[derive(Clone, Debug, PartialEq, Eq)]
pub struct AddBSPParameterCluster {
    /// The path of the sky that is seen from the region; it must be loaded already.
    pub sky: Option<String>,
}

impl AddBSPParameterLightmapMaterial {
    /// The shader is loaded in `registry`, and lightmap coordinates come one
    /// for each vertex.
    pub open spec fn valid(&self, registry: Registry) -> bool {
        &&& registry.shaders.contains_key(self.shader@)
        &&& self.lightmap_vertices matches Some(lightmap_vertices) ==> lightmap_vertices@.len()
            == self.shader_vertices@.len()
    }

    /// Accepts the material exactly when it is [`valid`](Self::valid).
    pub fn validate(&self, renderer: &Renderer) -> (result: MResult<()>)
        requires
            renderer.wf(),
        ensures
            result is Ok <==> self.valid(renderer.registry()),
            result is Err ==> result == Err::<(), Error>(Error::InvalidData),
    {
        if !renderer.has_shader(self.shader.as_str()) {
            return Err(Error::InvalidData);
        }
        match &self.lightmap_vertices {
            Some(lightmap_vertices) => {
                if lightmap_vertices.len() != self.shader_vertices.len() {
                    return Err(Error::InvalidData);
                }
            },
            None => {},
        }
        Ok(())
    }
}

impl AddBSPParameterLightmapSet {
    /// Where the set names a lightmap, it is one of the `lightmap_count`
    /// sub-bitmaps of the BSP's lightmap bitmap (`None`: the BSP has none);
    /// and every material is valid.
    pub open spec fn valid(&self, lightmap_count: Option<nat>, registry: Registry) -> bool {
        &&& self.lightmap_index matches Some(index) ==> (lightmap_count matches Some(count)
            && index < count)
        &&& forall|j: int|
            0 <= j < self.materials@.len() ==> (#[trigger] self.materials@[j]).valid(registry)
    }

    /// Accepts the set exactly when it is [`valid`](Self::valid).
    pub fn validate(&self, lightmap_count: Option<usize>, renderer: &Renderer) -> (result: MResult<
        (),
    >)
        requires
            renderer.wf(),
        ensures
            result is Ok <==> self.valid(
                match lightmap_count {
                    Some(count) => Some(count as nat),
                    None => None,
                },
                renderer.registry(),
            ),
            result is Err ==> result == Err::<(), Error>(Error::InvalidData),
    {
        match self.lightmap_index {
            Some(index) => {
                match lightmap_count {
                    Some(count) => {
                        if index >= count {
                            return Err(Error::InvalidData);
                        }
                    },
                    None => {
                        return Err(Error::InvalidData);
                    },
                }
            },
            None => {},
        }
        let mut j: usize = 0;
        while j < self.materials.len()
            invariant
                renderer.wf(),
                j <= self.materials@.len(),
                forall|k: int|
                    0 <= k < j ==> (#[trigger] self.materials@[k]).valid(renderer.registry()),
            decreases self.materials@.len() - j,
        {
            if self.materials[j].validate(renderer).is_err() {
                return Err(Error::InvalidData);
            }
            j = j + 1;
        }
        Ok(())
    }
}

impl AddBSPParameter {
    /// How many sub-bitmaps the BSP's lightmap bitmap has in `registry`;
    /// `None` where the BSP names none.
    pub open spec fn lightmap_count(&self, registry: Registry) -> Option<nat> {
        match self.lightmap_bitmap {
            Some(path) => Some(registry.bitmaps[path@].bitmaps@.len()),
            None => None,
        }
    }

    /// The lightmap bitmap is loaded in `registry`, where the BSP names one;
    /// every lightmap set is valid against it; and the sky of every region
    /// is loaded.
    pub open spec fn valid(&self, registry: Registry) -> bool {
        &&& self.lightmap_bitmap matches Some(path) ==> registry.bitmaps.contains_key(path@)
        &&& forall|i: int|
            0 <= i < self.lightmap_sets@.len() ==> (#[trigger] self.lightmap_sets@[i]).valid(
                self.lightmap_count(registry),
                registry,
            )
        &&& forall|i: int|
            0 <= i < self.clusters@.len() ==> ((#[trigger] self.clusters@[i]).sky matches Some(
                path,
            ) ==> registry.skies.contains_key(path@))
    }

    /// Accepts the BSP exactly when it is [`valid`](Self::valid).
    pub fn validate(&self, renderer: &Renderer) -> (result: MResult<()>)
        requires
            renderer.wf(),
        ensures
            result is Ok <==> self.valid(renderer.registry()),
            result is Err ==> result == Err::<(), Error>(Error::InvalidData),
    {
        let lightmap_count: Option<usize> = match &self.lightmap_bitmap {
            Some(path) => match renderer.get_bitmap(path.as_str()) {
                Some(bitmap) => Some(bitmap.bitmaps.len()),
                None => {
                    return Err(Error::InvalidData);
                },
            },
            None => None,
        };
        let mut i: usize = 0;
        while i < self.lightmap_sets.len()
            invariant
                renderer.wf(),
                i <= self.lightmap_sets@.len(),
                self.lightmap_count(renderer.registry()) == match lightmap_count {
                    Some(count) => Some(count as nat),
                    None => None,
                },
                forall|k: int|
                    0 <= k < i ==> (#[trigger] self.lightmap_sets@[k]).valid(
                        self.lightmap_count(renderer.registry()),
                        renderer.registry(),
                    ),
            decreases self.lightmap_sets@.len() - i,
        {
            if self.lightmap_sets[i].validate(lightmap_count, renderer).is_err() {
                return Err(Error::InvalidData);
            }
            i = i + 1;
        }
        let mut c: usize = 0;
        while c < self.clusters.len()
            invariant
                renderer.wf(),
                c <= self.clusters@.len(),
                forall|k: int|
                    0 <= k < c ==> ((#[trigger] self.clusters@[k]).sky matches Some(path)
                        ==> renderer.registry().skies.contains_key(path@)),
            decreases self.clusters@.len() - c,
        {
            match &self.clusters[c].sky {
                Some(path) => {
                    if !renderer.has_sky(path.as_str()) {
                        return Err(Error::InvalidData);
                    }
                },
                None => {},
            }
            c = c + 1;
        }
        Ok(())
    }
}

} // verus!
