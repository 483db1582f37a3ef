//! The material of a shader that is drawn with its base bitmap alone.

use vstd::prelude::*;
use crate::error::{Error, MResult};
use crate::renderer::parameters::shader::{AddShaderBasicShaderData, ShaderType};
use crate::renderer::vulkan::pipeline::{VulkanPipelineType, MATERIAL_DESCRIPTOR_SET};
use crate::renderer::vulkan::CullMode;
use crate::renderer::Renderer;
use crate::types::FloatBits;

verus! {

/// How a texture is sampled. Every sampler of the renderer filters
/// linearly and repeats the texture beyond its edges.
#[derive(Copy, Clone, Debug, PartialEq, Eq)]
pub struct SamplerCreateInfo {
    /// Whether the smaller mip levels are used.
    pub mipmaps: bool,
    /// The level of anisotropic filtering, if any.
    pub anisotropy: Option<FloatBits>,
}

/// The sampler that stands in wherever nothing else is bound: with mip
/// levels, without anisotropic filtering.
pub open spec fn spec_default_2d_sampler() -> SamplerCreateInfo {
    SamplerCreateInfo { mipmaps: true, anisotropy: None }
}

/// Makes [`spec_default_2d_sampler`].
pub fn default_2d_sampler() -> (sampler: SamplerCreateInfo)
    ensures
        sampler == spec_default_2d_sampler(),
{
    SamplerCreateInfo { mipmaps: true, anisotropy: None }
}

/// What a material hands to the command buffer for one draw.
#[derive(Copy, Clone, Debug, PartialEq, Eq)]
pub struct MaterialCommands {
    /// The pipeline to bind.
    pub pipeline: VulkanPipelineType,
    /// The cull mode to set.
    pub cull_mode: CullMode,
    /// The descriptor set that the material's sampler and image are bound at.
    pub descriptor_set: u32,
    /// How many indices to draw.
    pub index_count: u32,
}

/// The material of a shader that is drawn with its base bitmap alone.
#[derive(Clone, Debug, PartialEq, Eq)]
pub struct VulkanSimpleShaderMaterial {
    /// The path of the bitmap whose first sub-bitmap is the diffuse
    /// texture; `None`: the backend's plain white texture.
    pub diffuse: Option<String>,
    pub diffuse_sampler: SamplerCreateInfo,
    pub shader_type: ShaderType,
}

impl VulkanSimpleShaderMaterial {
    /// The pipeline that a material is drawn with: the textured pipeline
    /// of its pass.
    pub open spec fn spec_pipeline(transparent: bool) -> VulkanPipelineType {
        if transparent {
            VulkanPipelineType::SimpleTextureTransparent
        } else {
            VulkanPipelineType::SimpleTexture
        }
    }

    /// The faces that are left out when a material is drawn: those that
    /// look away where it is opaque, none where it is transparent.
    pub open spec fn spec_cull_mode(transparent: bool) -> CullMode {
        if transparent {
            CullMode::Disabled
        } else {
            CullMode::Back
        }
    }

    /// The sampler of a material of kind `shader_type`: without mip
    /// levels, and with the anisotropic filtering that was asked for where
    /// the kind is opaque.
    pub open spec fn spec_sampler(
        shader_type: ShaderType,
        anisotropic_filtering: Option<FloatBits>,
    ) -> SamplerCreateInfo {
        SamplerCreateInfo {
            mipmaps: false,
            anisotropy: if shader_type.spec_is_transparent() {
                None
            } else {
                anisotropic_filtering
            },
        }
    }

    /// Makes the material for a shader. Its diffuse texture is the first
    /// sub-bitmap of the shader's base bitmap where that is a flat texture
    /// of one layer, and plain white where it is not.
    ///
    /// Fails with `NotFound` exactly where the base bitmap is not loaded.
    pub fn new(renderer: &Renderer, add_shader_parameter: &AddShaderBasicShaderData) -> (result:
        MResult<Self>)
        requires
            renderer.wf(),
        ensures
            match result {
                Ok(material) => {
                    let path = add_shader_parameter.base_bitmap();
                    &&& renderer.registry().bitmaps.contains_key(path)
                    &&& material.shader_type == add_shader_parameter.shader_type
                    &&& material.diffuse_sampler == VulkanSimpleShaderMaterial::spec_sampler(
                        add_shader_parameter.shader_type,
                        renderer.backend().spec_anisotropic_filtering(),
                    )
                    &&& match material.diffuse {
                        Some(diffuse) => diffuse@ == path
                            && renderer.registry().bitmaps[path].spec_is_simple_texture(),
                        None => !renderer.registry().bitmaps[path].spec_is_simple_texture(),
                    }
                },
                Err(error) => {
                    &&& error == Error::NotFound
                    &&& !renderer.registry().bitmaps.contains_key(
                        add_shader_parameter.base_bitmap(),
                    )
                },
            },
    {
        let path: String = match &add_shader_parameter.bitmap {
            Some(bitmap) => bitmap.clone(),
            None => crate::renderer::parameters::shader::DEFAULT_BITMAP.to_owned(),
        };
        let simple = match renderer.get_bitmap(path.as_str()) {
            Some(bitmap) => bitmap.is_simple_texture(),
            None => {
                return Err(Error::NotFound);
            },
        };
        let shader_type = add_shader_parameter.shader_type;
        Ok(
            VulkanSimpleShaderMaterial {
                diffuse: if simple {
                    Some(path)
                } else {
                    None
                },
                diffuse_sampler: SamplerCreateInfo {
                    mipmaps: false,
                    anisotropy: if shader_type.is_transparent() {
                        None
                    } else {
                        renderer.anisotropic_filtering()
                    },
                },
                shader_type,
            },
        )
    }

    /// Whether the material is drawn in the transparent pass.
    pub fn is_transparent(&self) -> (transparent: bool)
        ensures
            transparent == self.shader_type.spec_is_transparent(),
    {
        self.shader_type.is_transparent()
    }

    /// What the material hands to the command buffer to draw `index_count`
    /// indices: the textured pipeline of its pass; back faces culled where
    /// it is opaque and none where it is transparent; and its own
    /// resources at the material's descriptor set.
    pub fn generate_commands(&self, index_count: u32) -> (commands: MaterialCommands)
        ensures
            commands == (MaterialCommands {
                pipeline: VulkanSimpleShaderMaterial::spec_pipeline(
                    self.shader_type.spec_is_transparent(),
                ),
                cull_mode: VulkanSimpleShaderMaterial::spec_cull_mode(
                    self.shader_type.spec_is_transparent(),
                ),
                descriptor_set: MATERIAL_DESCRIPTOR_SET,
                index_count,
            }),
    {
        let transparent = self.shader_type.is_transparent();
        MaterialCommands {
            pipeline: if transparent {
                VulkanPipelineType::SimpleTextureTransparent
            } else {
                VulkanPipelineType::SimpleTexture
            },
            cull_mode: if transparent {
                CullMode::Disabled
            } else {
                CullMode::Back
            },
            descriptor_set: MATERIAL_DESCRIPTOR_SET,
            index_count,
        }
    }
}

} // verus!
