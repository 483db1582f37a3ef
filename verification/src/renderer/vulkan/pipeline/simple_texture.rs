//! The pipeline that draws textured geometry, lit by a lightmap where there is one.

use vstd::prelude::*;
use crate::renderer::vulkan::helper::Format;
use crate::renderer::vulkan::pipeline::pipeline_loader::{
    load_pipeline,
    ColorBlendAttachmentState,
    DepthAccess,
    GraphicsPipelineCreateInfo,
    PipelineSettings,
    PipelineSettingsView,
    SampleCount,
    VertexBufferDescription,
};

verus! {

/// The pipeline for textured geometry, in its opaque or its transparent form.
#[derive(Clone, Debug, PartialEq, Eq)]
pub struct SimpleTextureShader {
    pub pipeline: GraphicsPipelineCreateInfo,
}

impl SimpleTextureShader {
    /// The settings of the pipeline. It takes a model vertex, texture
    /// coordinates and lightmap texture coordinates for each vertex. The
    /// opaque form writes depth and replaces what is there; the transparent
    /// form respects the depth that is there, writes none, and adds to
    /// what is there.
    pub open spec fn spec_settings(
        samples: SampleCount,
        format: Format,
        transparent: bool,
    ) -> PipelineSettingsView {
        PipelineSettingsView {
            depth_access: if transparent {
                DepthAccess::DepthReadOnlyTransparent
            } else {
                DepthAccess::DepthWrite
            },
            vertex_buffer_descriptions: seq![
                VertexBufferDescription::ModelVertex,
                VertexBufferDescription::TextureCoords,
                VertexBufferDescription::LightmapTextureCoords,
            ],
            color_blend_attachment_state: if transparent {
                ColorBlendAttachmentState::Additive
            } else {
                ColorBlendAttachmentState::Replace
            },
            samples,
            format,
        }
    }

    /// Makes the settings of the pipeline.
    pub fn settings(samples: SampleCount, format: Format, transparent: bool) -> (settings:
        PipelineSettings)
        ensures
            settings@ == SimpleTextureShader::spec_settings(samples, format, transparent),
    {
        let mut vertex_buffer_descriptions: Vec<VertexBufferDescription> = Vec::new();
        vertex_buffer_descriptions.push(VertexBufferDescription::ModelVertex);
        vertex_buffer_descriptions.push(VertexBufferDescription::TextureCoords);
        vertex_buffer_descriptions.push(VertexBufferDescription::LightmapTextureCoords);
        assert(vertex_buffer_descriptions@ =~= seq![
            VertexBufferDescription::ModelVertex,
            VertexBufferDescription::TextureCoords,
            VertexBufferDescription::LightmapTextureCoords,
        ]);
        PipelineSettings {
            depth_access: if transparent {
                DepthAccess::DepthReadOnlyTransparent
            } else {
                DepthAccess::DepthWrite
            },
            vertex_buffer_descriptions,
            color_blend_attachment_state: if transparent {
                ColorBlendAttachmentState::Additive
            } else {
                ColorBlendAttachmentState::Replace
            },
            samples,
            format,
        }
    }

    /// Describes the pipeline for surfaces of `format` with `samples`
    /// samples, in its transparent form where `transparent` is set.
    pub fn new(samples: SampleCount, format: Format, transparent: bool) -> (shader: Self)
        ensures
            shader.pipeline.made_from(
                SimpleTextureShader::spec_settings(samples, format, transparent),
            ),
    {
        let settings = SimpleTextureShader::settings(samples, format, transparent);
        SimpleTextureShader { pipeline: load_pipeline(&settings) }
    }

    /// The description of the pipeline.
    pub fn get_pipeline(&self) -> (pipeline: &GraphicsPipelineCreateInfo)
        ensures
            *pipeline == self.pipeline,
    {
        &self.pipeline
    }

    /// Whether the pipeline samples a lightmap: it does.
    pub fn has_lightmaps(&self) -> (has: bool)
        ensures
            has,
    {
        true
    }

    /// Whether the pipeline applies fog: it does.
    pub fn has_fog(&self) -> (has: bool)
        ensures
            has,
    {
        true
    }
}

} // verus!
