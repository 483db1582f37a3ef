//! The catalog of graphics pipelines.

use vstd::prelude::*;
use crate::renderer::vulkan::helper::Format;
use crate::renderer::vulkan::pipeline::pipeline_loader::{
    DepthAccess,
    GraphicsPipelineCreateInfo,
    PipelineSettings,
    PipelineSettingsView,
    SampleCount,
    load_pipeline,
};
use crate::renderer::vulkan::pipeline::simple_texture::SimpleTextureShader;
use crate::renderer::vulkan::pipeline::solid_color::SolidColorShader;

pub mod pipeline_loader;
pub mod simple_texture;
pub mod solid_color;

verus! {

/// The descriptor set that holds the matrices and the other data of a frame.
pub const MVP_DESCRIPTOR_SET: u32 = 0u32;

/// The descriptor set that holds what is the material's own: its sampler and
/// base image, or its colour.
pub const MATERIAL_DESCRIPTOR_SET: u32 = 1u32;

/// The descriptor set that holds the sampler and image of the lightmap.
pub const LIGHTMAP_DESCRIPTOR_SET: u32 = 2u32;

/// What can be bound at one binding of a descriptor set.
#[derive(Copy, Clone, Debug, PartialEq, Eq)]
pub enum DescriptorType {
    UniformBuffer,
    Sampler,
    SampledImage,
}

/// The kinds of pipeline.
#[derive(Copy, Clone, Debug, PartialEq, Eq)]
pub enum VulkanPipelineType {
    /// Opaque textured geometry.
    SimpleTexture,
    /// Transparent textured geometry.
    SimpleTextureTransparent,
    /// A box of one colour, in screen space.
    ColorBox,
}

impl VulkanPipelineType {
    /// Whether what the pipeline draws belongs in the transparent pass.
    pub open spec fn spec_is_transparent(self) -> bool {
        self is SimpleTextureTransparent
    }

    /// Tests [`VulkanPipelineType::spec_is_transparent`].
    pub fn is_transparent(self) -> (transparent: bool)
        ensures
            transparent == self.spec_is_transparent(),
    {
        match self {
            VulkanPipelineType::SimpleTextureTransparent => true,
            _ => false,
        }
    }

    /// How pipelines of the kind use the depth buffer.
    pub open spec fn spec_depth_access(self) -> DepthAccess {
        match self {
            VulkanPipelineType::SimpleTexture => DepthAccess::DepthWrite,
            VulkanPipelineType::SimpleTextureTransparent => DepthAccess::DepthReadOnlyTransparent,
            VulkanPipelineType::ColorBox => DepthAccess::NoDepth,
        }
    }

    /// How pipelines of the kind use the depth buffer.
    pub fn depth_access(self) -> (access: DepthAccess)
        ensures
            access == self.spec_depth_access(),
    {
        match self {
            VulkanPipelineType::SimpleTexture => DepthAccess::DepthWrite,
            VulkanPipelineType::SimpleTextureTransparent => DepthAccess::DepthReadOnlyTransparent,
            VulkanPipelineType::ColorBox => DepthAccess::NoDepth,
        }
    }

    /// Whether pipelines of the kind sample a lightmap.
    pub open spec fn spec_has_lightmaps(self) -> bool {
        !(self is ColorBox)
    }

    /// Whether pipelines of the kind sample a lightmap.
    pub fn has_lightmaps(self) -> (has: bool)
        ensures
            has == self.spec_has_lightmaps(),
    {
        match self {
            VulkanPipelineType::ColorBox => false,
            _ => true,
        }
    }

    /// What pipelines of the kind take at descriptor set `set`, binding by
    /// binding. Textured geometry takes the matrices in a uniform buffer, a
    /// sampler and an image for the material, and a sampler and an image
    /// for the lightmap; a box takes its colour in a uniform buffer as what
    /// is the material's own, and nothing else.
    pub open spec fn spec_descriptor_set_layout(self, set: u32) -> Seq<DescriptorType> {
        if self is ColorBox {
            if set == MATERIAL_DESCRIPTOR_SET {
                seq![DescriptorType::UniformBuffer]
            } else {
                Seq::empty()
            }
        } else if set == MVP_DESCRIPTOR_SET {
            seq![DescriptorType::UniformBuffer]
        } else if set == MATERIAL_DESCRIPTOR_SET || set == LIGHTMAP_DESCRIPTOR_SET {
            seq![DescriptorType::Sampler, DescriptorType::SampledImage]
        } else {
            Seq::empty()
        }
    }

    /// What pipelines of the kind take at descriptor set `set`, binding by binding.
    pub fn descriptor_set_layout(self, set: u32) -> (layout: Vec<DescriptorType>)
        ensures
            layout@ == self.spec_descriptor_set_layout(set),
    {
        let mut layout: Vec<DescriptorType> = Vec::new();
        match self {
            VulkanPipelineType::ColorBox => {
                if set == MATERIAL_DESCRIPTOR_SET {
                    layout.push(DescriptorType::UniformBuffer);
                }
            },
            _ => {
                if set == MVP_DESCRIPTOR_SET {
                    layout.push(DescriptorType::UniformBuffer);
                } else if set == MATERIAL_DESCRIPTOR_SET || set == LIGHTMAP_DESCRIPTOR_SET {
                    layout.push(DescriptorType::Sampler);
                    layout.push(DescriptorType::SampledImage);
                }
            },
        }
        assert(layout@ =~= self.spec_descriptor_set_layout(set));
        layout
    }

    /// The settings of the kind, for surfaces of `format` with `samples` samples.
    pub open spec fn spec_settings(self, samples: SampleCount, format: Format) -> PipelineSettingsView {
        match self {
            VulkanPipelineType::SimpleTexture => SimpleTextureShader::spec_settings(
                samples,
                format,
                false,
            ),
            VulkanPipelineType::SimpleTextureTransparent => SimpleTextureShader::spec_settings(
                samples,
                format,
                true,
            ),
            VulkanPipelineType::ColorBox => SolidColorShader::spec_settings(samples, format),
        }
    }

    /// Makes the settings of the kind.
    pub fn settings(self, samples: SampleCount, format: Format) -> (settings: PipelineSettings)
        ensures
            settings@ == self.spec_settings(samples, format),
            settings.depth_access == self.spec_depth_access(),
    {
        match self {
            VulkanPipelineType::SimpleTexture => SimpleTextureShader::settings(
                samples,
                format,
                false,
            ),
            VulkanPipelineType::SimpleTextureTransparent => SimpleTextureShader::settings(
                samples,
                format,
                true,
            ),
            VulkanPipelineType::ColorBox => SolidColorShader::settings(samples, format),
        }
    }
}

/// The kinds of pipeline, in the order of the catalog.
pub open spec fn catalog() -> Seq<VulkanPipelineType> {
    seq![
        VulkanPipelineType::SimpleTexture,
        VulkanPipelineType::SimpleTextureTransparent,
        VulkanPipelineType::ColorBox,
    ]
}

/// Describes every pipeline of the catalog, for surfaces of `format` with
/// `samples` samples: one of each kind, in the order of the catalog, each
/// made from the settings of its kind.
pub fn load_all_pipelines(samples: SampleCount, format: Format) -> (pipelines: Vec<
    (VulkanPipelineType, GraphicsPipelineCreateInfo),
>)
    ensures
        pipelines@.len() == catalog().len(),
        forall|i: int|
            0 <= i < pipelines@.len() ==> {
                &&& (#[trigger] pipelines@[i]).0 == catalog()[i]
                &&& pipelines@[i].1.made_from(catalog()[i].spec_settings(samples, format))
            },
{
    let mut pipelines: Vec<(VulkanPipelineType, GraphicsPipelineCreateInfo)> = Vec::new();
    let simple = VulkanPipelineType::SimpleTexture.settings(samples, format);
    pipelines.push((VulkanPipelineType::SimpleTexture, load_pipeline(&simple)));
    let transparent = VulkanPipelineType::SimpleTextureTransparent.settings(samples, format);
    pipelines.push((VulkanPipelineType::SimpleTextureTransparent, load_pipeline(&transparent)));
    let boxes = VulkanPipelineType::ColorBox.settings(samples, format);
    pipelines.push((VulkanPipelineType::ColorBox, load_pipeline(&boxes)));
    pipelines
}

} // verus!
