//! What a caller hands over to add a shader, and when it is acceptable.

use vstd::prelude::*;
use crate::error::{Error, MResult};
use crate::renderer::data::Registry;
use crate::renderer::Renderer;

verus! {

/// The kinds of shader.
#[derive(Copy, Clone, Debug, PartialEq, Eq)]
pub enum ShaderType {
    Environment,
    Model,
    TransparentChicago,
    TransparentGeneric,
    TransparentGlass,
    TransparentMeter,
    TransparentPlasma,
    TransparentWater,
}

impl ShaderType {
    /// Whether surfaces of this kind are drawn in the transparent pass:
    /// every kind but the environment and model shaders.
    pub open spec fn spec_is_transparent(self) -> bool {
        !(self is Environment || self is Model)
    }

    /// Tests [`ShaderType::spec_is_transparent`].
    pub fn is_transparent(self) -> (transparent: bool)
        ensures
            transparent == self.spec_is_transparent(),
    {
        match self {
            ShaderType::Environment | ShaderType::Model => false,
            _ => true,
        }
    }
}

/// The path of the bitmap that stands in where a shader names no base bitmap.
pub const DEFAULT_BITMAP: &'static str = "ui/shell/bitmaps/white";

/// A shader that is described by its base bitmap alone.
#[derive(Clone, Debug, PartialEq, Eq)]
pub struct AddShaderBasicShaderData {
    /// The path of the base diffuse bitmap; where there is none, the
    /// [`DEFAULT_BITMAP`] takes its place.
    pub bitmap: Option<String>,
    pub shader_type: ShaderType,
}

/// The forms in which a shader can be described.
#[derive(Clone, Debug, PartialEq, Eq)]
pub enum AddShaderData {
    BasicShader(AddShaderBasicShaderData),
}

/// A shader to add.
#[derive(Clone, Debug, PartialEq, Eq)]
pub struct AddShaderParameter {
    pub data: AddShaderData,
}

impl AddShaderBasicShaderData {
    /// The path of the base bitmap that the shader samples.
    pub open spec fn base_bitmap(&self) -> Seq<char> {
        match self.bitmap {
            Some(path) => path@,
            None => DEFAULT_BITMAP@,
        }
    }
}

impl AddShaderParameter {
    /// The path of the base bitmap that the shader samples.
    pub open spec fn base_bitmap(&self) -> Seq<char> {
        match self.data {
            AddShaderData::BasicShader(basic) => basic.base_bitmap(),
        }
    }

    /// The kind of the shader.
    pub open spec fn shader_type(&self) -> ShaderType {
        match self.data {
            AddShaderData::BasicShader(basic) => basic.shader_type,
        }
    }

    /// The base bitmap is loaded in `registry`.
    pub open spec fn valid(&self, registry: Registry) -> bool {
        registry.bitmaps.contains_key(self.base_bitmap())
    }

    /// Accepts the shader exactly when it is [`valid`](Self::valid).
    pub fn validate(&self, renderer: &Renderer) -> (result: MResult<()>)
        requires
            renderer.wf(),
        ensures
            result is Ok <==> self.valid(renderer.registry()),
            result is Err ==> result == Err::<(), Error>(Error::InvalidData),
    {
        let found = match &self.data {
            AddShaderData::BasicShader(basic) => match &basic.bitmap {
                Some(path) => renderer.has_bitmap(path.as_str()),
                None => renderer.has_bitmap(DEFAULT_BITMAP),
            },
        };
        if found {
            Ok(())
        } else {
            Err(Error::InvalidData)
        }
    }
}

} // verus!
