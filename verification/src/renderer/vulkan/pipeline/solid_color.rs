//! The pipeline that fills a rectangle of the screen with one colour.

use vstd::prelude::*;
use crate::renderer::vulkan::helper::Format;
use crate::renderer::vulkan::pipeline::pipeline_loader::{
    load_pipeline,
    ColorBlendAttachmentState,
    DepthAccess,
    GraphicsPipelineCreateInfo,
    PipelineSettings,
    PipelineSettingsView,
    SampleCount,
    VertexBufferDescription,
};

verus! {

/// The pipeline for boxes of one colour, drawn over whatever is there.
#[derive(Clone, Debug, PartialEq, Eq)]
pub struct SolidColorShader {
    pub pipeline: GraphicsPipelineCreateInfo,
}

impl SolidColorShader {
    /// The settings of the pipeline: it takes model vertices alone, ignores
    /// depth, and replaces what is there.
    pub open spec fn spec_settings(samples: SampleCount, format: Format) -> PipelineSettingsView {
        PipelineSettingsView {
            depth_access: DepthAccess::NoDepth,
            vertex_buffer_descriptions: seq![VertexBufferDescription::ModelVertex],
            color_blend_attachment_state: ColorBlendAttachmentState::Replace,
            samples,
            format,
        }
    }

    /// Makes the settings of the pipeline.
    pub fn settings(samples: SampleCount, format: Format) -> (settings: PipelineSettings)
        ensures
            settings@ == SolidColorShader::spec_settings(samples, format),
    {
        let mut vertex_buffer_descriptions: Vec<VertexBufferDescription> = Vec::new();
        vertex_buffer_descriptions.push(VertexBufferDescription::ModelVertex);
        assert(vertex_buffer_descriptions@ =~= seq![VertexBufferDescription::ModelVertex]);
        PipelineSettings {
            depth_access: DepthAccess::NoDepth,
            vertex_buffer_descriptions,
            color_blend_attachment_state: ColorBlendAttachmentState::Replace,
            samples,
            format,
        }
    }

    /// Describes the pipeline for surfaces of `format` with `samples` samples.
    pub fn new(samples: SampleCount, format: Format) -> (shader: Self)
        ensures
            shader.pipeline.made_from(SolidColorShader::spec_settings(samples, format)),
    {
        let settings = SolidColorShader::settings(samples, format);
        SolidColorShader { pipeline: load_pipeline(&settings) }
    }

    /// The description of the pipeline.
    pub fn get_pipeline(&self) -> (pipeline: &GraphicsPipelineCreateInfo)
        ensures
            *pipeline == self.pipeline,
    {
        &self.pipeline
    }
}

} // verus!
