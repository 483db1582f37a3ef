//! What a caller hands over to add a sky, and when it is acceptable.

use vstd::prelude::*;
use crate::error::{Error, MResult};
use crate::renderer::data::{Registry, Sky};
use crate::renderer::Renderer;
use crate::types::FloatBits;

verus! {

/// A sky to add.
#[derive(Clone, Debug, PartialEq, Eq)]
pub struct AddSkyParameter {
    /// The fog colour out of doors, as red, green and blue.
    pub outdoor_fog_color: [FloatBits; 3],
    /// The fog colour indoors, as red, green and blue.
    pub indoor_fog_color: [FloatBits; 3],
    pub fog_density: FloatBits,
    /// The path of a bitmap that the sky uses; it must be loaded already.
    pub bitmap: Option<String>,
    /// The path of the geometry of the sky's model; it must be loaded already.
    pub model: Option<String>,
}

impl AddSkyParameter {
    /// The bitmap and the model that the sky names are loaded in `registry`.
    pub open spec fn valid(&self, registry: Registry) -> bool {
        Sky::from_parameters(*self).resolves(registry.bitmaps, registry.geometries)
    }

    /// Accepts the sky exactly when it is [`valid`](Self::valid).
    pub fn validate(&self, renderer: &Renderer) -> (result: MResult<()>)
        requires
            renderer.wf(),
        ensures
            result is Ok <==> self.valid(renderer.registry()),
            result is Err ==> result == Err::<(), Error>(Error::InvalidData),
    {
        match &self.bitmap {
            Some(path) => {
                if !renderer.has_bitmap(path.as_str()) {
                    return Err(Error::InvalidData);
                }
            },
            None => {},
        }
        match &self.model {
            Some(path) => {
                if !renderer.has_geometry(path.as_str()) {
                    return Err(Error::InvalidData);
                }
            },
            None => {},
        }
        Ok(())
    }
}

} // verus!
