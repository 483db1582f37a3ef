//! The fixed state that a graphics pipeline is made with.

use vstd::prelude::*;
use crate::renderer::vulkan::helper::{Format, DEPTH_FORMAT};

verus! {

/// How a pipeline reads and writes the depth buffer.
#[derive(Copy, Clone, Debug, PartialEq, Eq)]
pub enum DepthAccess {
    /// The depth as determined by the vertex shader must be less than or equal.
    ///
    /// This will pass as long as nothing is in front of the vertices.
    ///
    /// This is used primarily for transparent shaders.
    DepthReadOnlyTransparent,
    /// The depth as determined by the vertex shader has to equal.
    ///
    /// This will pass if the depth buffer was written to already with the exact vertices.
    ///
    /// This is used if one needs to overlay on top of something already written.
    DepthReadOnly,
    /// The depth as determined by the vertex must be less than or equal.
    ///
    /// This will pass as long as nothing is in front of the vertices.
    ///
    /// This is used if one needs to write to the depth buffer.
    DepthWrite,
    /// The depth buffer is completely ignored.
    ///
    /// Draw on top of whatever is there.
    NoDepth,
}

/// How a fragment's depth is held against the depth buffer.
#[derive(Copy, Clone, Debug, PartialEq, Eq)]
pub enum CompareOp {
    LessOrEqual,
    Equal,
    Always,
}

/// The depth test of a pipeline.
#[derive(Copy, Clone, Debug, PartialEq, Eq)]
pub struct DepthState {
    /// Whether fragments that pass write their depth.
    pub write_enable: bool,
    pub compare_op: CompareOp,
}

impl DepthAccess {
    /// The depth test that stands for the mode.
    pub open spec fn spec_depth_state(self) -> DepthState {
        match self {
            DepthAccess::DepthWrite => DepthState {
                write_enable: true,
                compare_op: CompareOp::LessOrEqual,
            },
            DepthAccess::DepthReadOnly => DepthState {
                write_enable: false,
                compare_op: CompareOp::Equal,
            },
            DepthAccess::DepthReadOnlyTransparent => DepthState {
                write_enable: false,
                compare_op: CompareOp::LessOrEqual,
            },
            DepthAccess::NoDepth => DepthState {
                write_enable: false,
                compare_op: CompareOp::Always,
            },
        }
    }

    /// The depth test that stands for the mode.
    pub fn depth_state(self) -> (state: DepthState)
        ensures
            state == self.spec_depth_state(),
    {
        match self {
            DepthAccess::DepthWrite => DepthState {
                write_enable: true,
                compare_op: CompareOp::LessOrEqual,
            },
            DepthAccess::DepthReadOnly => DepthState {
                write_enable: false,
                compare_op: CompareOp::Equal,
            },
            DepthAccess::DepthReadOnlyTransparent => DepthState {
                write_enable: false,
                compare_op: CompareOp::LessOrEqual,
            },
            DepthAccess::NoDepth => DepthState {
                write_enable: false,
                compare_op: CompareOp::Always,
            },
        }
    }
}

impl Default for DepthAccess {
    fn default() -> (access: DepthAccess)
        ensures
            access == DepthAccess::DepthReadOnly,
    {
        DepthAccess::DepthReadOnly
    }
}

/// The vertex buffers that pipelines take, each with one record for each vertex.
#[derive(Copy, Clone, Debug, PartialEq, Eq)]
pub enum VertexBufferDescription {
    /// Position, normal, binormal and tangent: four vectors of three floats.
    ModelVertex,
    /// Texture coordinates: one vector of two floats.
    TextureCoords,
    /// Lightmap texture coordinates: one vector of two floats.
    LightmapTextureCoords,
}

/// The format of a vector of three 32-bit floats.
pub const R32G32B32_SFLOAT: Format = 106i32;

/// The format of a vector of two 32-bit floats.
pub const R32G32_SFLOAT: Format = 103i32;

impl VertexBufferDescription {
    /// The bytes from one record of the buffer to the next.
    pub open spec fn spec_stride(self) -> nat {
        match self {
            VertexBufferDescription::ModelVertex => 48,
            VertexBufferDescription::TextureCoords => 8,
            VertexBufferDescription::LightmapTextureCoords => 8,
        }
    }

    /// The bytes from one record of the buffer to the next.
    pub fn stride(self) -> (stride: u32)
        ensures
            stride == self.spec_stride(),
    {
        match self {
            VertexBufferDescription::ModelVertex => 48,
            VertexBufferDescription::TextureCoords => 8,
            VertexBufferDescription::LightmapTextureCoords => 8,
        }
    }

    /// The formats of the members of one record, in the order in which they lie.
    pub open spec fn spec_members(self) -> Seq<Format> {
        match self {
            VertexBufferDescription::ModelVertex => seq![
                R32G32B32_SFLOAT,
                R32G32B32_SFLOAT,
                R32G32B32_SFLOAT,
                R32G32B32_SFLOAT,
            ],
            VertexBufferDescription::TextureCoords => seq![R32G32_SFLOAT],
            VertexBufferDescription::LightmapTextureCoords => seq![R32G32_SFLOAT],
        }
    }

    /// The formats of the members of one record, in the order in which they lie.
    pub fn members(self) -> (members: Vec<Format>)
        ensures
            members@ == self.spec_members(),
    {
        let mut members: Vec<Format> = Vec::new();
        match self {
            VertexBufferDescription::ModelVertex => {
                members.push(R32G32B32_SFLOAT);
                members.push(R32G32B32_SFLOAT);
                members.push(R32G32B32_SFLOAT);
                members.push(R32G32B32_SFLOAT);
            },
            VertexBufferDescription::TextureCoords => {
                members.push(R32G32_SFLOAT);
            },
            VertexBufferDescription::LightmapTextureCoords => {
                members.push(R32G32_SFLOAT);
            },
        }
        assert(members@ =~= self.spec_members());
        members
    }
}

/// How what a pipeline draws is blended with what is there.
#[derive(Copy, Clone, Debug, PartialEq, Eq)]
pub enum ColorBlendAttachmentState {
    /// What is drawn replaces what is there.
    Replace,
    /// What is drawn is added to what is there.
    Additive,
}

/// How many samples a pixel has.
#[derive(Copy, Clone, Debug, PartialEq, Eq)]
pub enum SampleCount {
    Sample1,
    Sample2,
    Sample4,
    Sample8,
    Sample16,
    Sample32,
    Sample64,
}

/// Which way round the front of a triangle is wound.
#[derive(Copy, Clone, Debug, PartialEq, Eq)]
pub enum FrontFace {
    CounterClockwise,
    Clockwise,
}

/// The colour format that pipelines are made for where no surface gives one:
/// four 8-bit channels, red first.
pub const OFFLINE_PIPELINE_COLOR_FORMAT: Format = 37i32;

/// What sets one pipeline apart from another.
#[derive(Clone, Debug, PartialEq, Eq)]
pub struct PipelineSettings {
    /// Determines how depth is accessed.
    pub depth_access: DepthAccess,
    /// Vertex data expected to be bound and sent to the shader.
    pub vertex_buffer_descriptions: Vec<VertexBufferDescription>,
    /// Determines how to blend
    pub color_blend_attachment_state: ColorBlendAttachmentState,
    /// Sample count to use.
    pub samples: SampleCount,
    /// Color format to use
    pub format: Format,
}

/// Pipeline settings as the contracts speak of them.
pub struct PipelineSettingsView {
    pub depth_access: DepthAccess,
    pub vertex_buffer_descriptions: Seq<VertexBufferDescription>,
    pub color_blend_attachment_state: ColorBlendAttachmentState,
    pub samples: SampleCount,
    pub format: Format,
}

impl View for PipelineSettings {
    type V = PipelineSettingsView;

    open spec fn view(&self) -> PipelineSettingsView {
        PipelineSettingsView {
            depth_access: self.depth_access,
            vertex_buffer_descriptions: self.vertex_buffer_descriptions@,
            color_blend_attachment_state: self.color_blend_attachment_state,
            samples: self.samples,
            format: self.format,
        }
    }
}

impl PipelineSettingsView {
    /// The settings that stand where none are given: depth is read and must
    /// be equal, no vertex buffer is taken, what is drawn replaces what is
    /// there, a pixel has one sample, and the colour format is the one for
    /// drawing without a surface.
    pub open spec fn spec_default() -> PipelineSettingsView {
        PipelineSettingsView {
            depth_access: DepthAccess::DepthReadOnly,
            vertex_buffer_descriptions: Seq::empty(),
            color_blend_attachment_state: ColorBlendAttachmentState::Replace,
            samples: SampleCount::Sample1,
            format: OFFLINE_PIPELINE_COLOR_FORMAT,
        }
    }
}

impl Default for PipelineSettings {
    fn default() -> (settings: PipelineSettings)
        ensures
            settings@ == PipelineSettingsView::spec_default(),
    {
        PipelineSettings {
            depth_access: DepthAccess::DepthReadOnly,
            vertex_buffer_descriptions: Vec::new(),
            color_blend_attachment_state: ColorBlendAttachmentState::Replace,
            samples: SampleCount::Sample1,
            format: OFFLINE_PIPELINE_COLOR_FORMAT,
        }
    }
}

/// Everything that a graphics pipeline is made with, but its shader stages.
#[derive(Clone, Debug, PartialEq, Eq)]
pub struct GraphicsPipelineCreateInfo {
    pub vertex_buffer_descriptions: Vec<VertexBufferDescription>,
    pub front_face: FrontFace,
    pub rasterization_samples: SampleCount,
    /// The blending of the one colour attachment.
    pub color_blend: ColorBlendAttachmentState,
    /// The format of the one colour attachment.
    pub color_attachment_format: Format,
    pub depth_attachment_format: Format,
    pub depth: DepthState,
    /// Whether the viewport is set while drawing.
    pub dynamic_viewport: bool,
    /// Whether the cull mode is set while drawing.
    pub dynamic_cull_mode: bool,
}

impl GraphicsPipelineCreateInfo {
    /// Whether the pipeline is the one that `settings` describe: it takes
    /// their vertex buffers, samples, blending and colour format; the depth
    /// test is that of their depth access; the depth format is 32-bit
    /// float; a clockwise triangle shows its front; and the viewport and
    /// the cull mode are set while drawing.
    pub open spec fn made_from(&self, settings: PipelineSettingsView) -> bool {
        &&& self.vertex_buffer_descriptions@ == settings.vertex_buffer_descriptions
        &&& self.front_face == FrontFace::Clockwise
        &&& self.rasterization_samples == settings.samples
        &&& self.color_blend == settings.color_blend_attachment_state
        &&& self.color_attachment_format == settings.format
        &&& self.depth_attachment_format == DEPTH_FORMAT
        &&& self.depth == settings.depth_access.spec_depth_state()
        &&& self.dynamic_viewport
        &&& self.dynamic_cull_mode
    }
}

/// Describes the pipeline for `settings`.
pub fn load_pipeline(settings: &PipelineSettings) -> (pipeline: GraphicsPipelineCreateInfo)
    ensures
        pipeline.made_from(settings@),
{
    let mut vertex_buffer_descriptions: Vec<VertexBufferDescription> = Vec::new();
    let mut i: usize = 0;
    while i < settings.vertex_buffer_descriptions.len()
        invariant
            i <= settings.vertex_buffer_descriptions@.len(),
            vertex_buffer_descriptions@ == settings.vertex_buffer_descriptions@.take(i as int),
        decreases settings.vertex_buffer_descriptions@.len() - i,
    {
        vertex_buffer_descriptions.push(settings.vertex_buffer_descriptions[i]);
        assert(settings.vertex_buffer_descriptions@.take(i + 1)
            =~= settings.vertex_buffer_descriptions@.take(i as int).push(
            settings.vertex_buffer_descriptions@[i as int],
        ));
        i = i + 1;
    }
    assert(settings.vertex_buffer_descriptions@.take(
        settings.vertex_buffer_descriptions@.len() as int,
    ) =~= settings.vertex_buffer_descriptions@);
    GraphicsPipelineCreateInfo {
        vertex_buffer_descriptions,
        front_face: FrontFace::Clockwise,
        rasterization_samples: settings.samples,
        color_blend: settings.color_blend_attachment_state,
        color_attachment_format: settings.format,
        depth_attachment_format: DEPTH_FORMAT,
        depth: settings.depth_access.depth_state(),
        dynamic_viewport: true,
        dynamic_cull_mode: true,
    }
}

} // verus!
