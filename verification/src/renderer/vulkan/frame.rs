//! The steps of a frame: what they are, and which of them make a frame.

use vstd::prelude::*;
use crate::renderer::data::{Geometry, Registry, ShaderView, Sky};
use crate::renderer::parameters::Resolution;
use crate::renderer::player_viewport::PlayerViewport;
use crate::renderer::vulkan::material::simple_shader::VulkanSimpleShaderMaterial;
use crate::renderer::vulkan::pipeline::VulkanPipelineType;
use crate::types::{FloatBits, FloatColor, FLOAT_ONE};

verus! {

/// The bit pattern of the distance of the near plane, `0.05`.
pub const NEAR_PLANE: FloatBits = 0x3D4C_CCCDu32;

/// The bit pattern of the distance of the far plane, `2250.0`.
pub const FAR_PLANE: FloatBits = 0x450C_A000u32;

/// The bit patterns of the direction that is up for every camera, `(0, 0, -1)`.
pub const CAMERA_UP: [FloatBits; 3] = [0x0000_0000u32, 0x0000_0000u32, 0xBF80_0000u32];

/// The colour that a frame is cleared to, and that of the bars between
/// viewports: opaque black.
pub const OPAQUE_BLACK: FloatColor = [0x0000_0000u32, 0x0000_0000u32, 0x0000_0000u32, 0x3F80_0000u32];

/// The bit pattern of the depth that a frame is cleared to, `1.0`.
pub const CLEAR_DEPTH: FloatBits = 0x3F80_0000u32;

/// The thickness of the bars between viewports on a surface of 640 by 480, in pixels.
pub const BASE_BAR_THICKNESS: u32 = 2;

/// Which faces of a triangle are left out.
#[derive(Copy, Clone, Debug, PartialEq, Eq)]
pub enum CullMode {
    /// No face is left out.
    Disabled,
    /// The faces that look away are left out.
    Back,
}

/// How getting the next image of the swapchain went.
#[derive(Copy, Clone, Debug, PartialEq, Eq)]
pub enum AcquireOutcome {
    /// Image `image_index` is ready to be drawn to; `suboptimal`: the
    /// swapchain still works but no longer fits the surface.
    Acquired { image_index: u32, suboptimal: bool },
    /// The swapchain no longer fits the surface at all.
    OutOfDate,
}

/// How presenting a frame went.
#[derive(Copy, Clone, Debug, PartialEq, Eq)]
pub enum PresentOutcome {
    Presented,
    /// The swapchain no longer fits the surface at all.
    OutOfDate,
}

/// By how much the bars between viewports grow with the surface, as a
/// fraction that is never below one.
#[derive(Copy, Clone, Debug, PartialEq, Eq)]
pub struct LineScale {
    pub numerator: u32,
    pub denominator: u32,
}

/// A bar between viewports. It runs along the middle of the surface,
/// across it or down it.
#[derive(Copy, Clone, Debug, PartialEq, Eq)]
pub struct SplitScreenBar {
    /// Whether the bar runs down the surface, at half its width; else it
    /// runs across, at half its height.
    pub vertical: bool,
    /// Whether the bar covers only the second half of its run, from the
    /// middle of the surface on; else it covers all of it.
    pub second_half_only: bool,
    /// The thickness of the bar in pixels is [`BASE_BAR_THICKNESS`] times this.
    pub scale: LineScale,
}

/// A rectangle on the surface, in pixels. Its sides lie at fractions of a
/// pixel: each of `left`, `top`, `width` and `height` is to be divided by
/// `denominator`.
#[derive(Copy, Clone, Debug, PartialEq, Eq)]
pub struct BarRectangle {
    pub left: i128,
    pub top: i128,
    pub width: i128,
    pub height: i128,
    pub denominator: i128,
}

impl SplitScreenBar {
    /// Where the bar lies on a surface of `resolution`. It is
    /// [`BASE_BAR_THICKNESS`] pixels thick, times its scale, and the middle
    /// of the surface runs along the middle of it. Along its run it covers
    /// the whole surface, or the half of it from the middle on.
    ///
    /// The rectangle is given in parts of a pixel, of which there are twice
    /// the denominator of the scale in one pixel.
    pub open spec fn spec_rectangle(self, resolution: Resolution) -> BarRectangle {
        let half_thickness = BASE_BAR_THICKNESS * self.scale.numerator;
        let half_across = resolution.width * self.scale.denominator;
        let half_down = resolution.height * self.scale.denominator;
        if self.vertical {
            BarRectangle {
                left: (half_across - half_thickness) as i128,
                top: if self.second_half_only {
                    half_down as i128
                } else {
                    0
                },
                width: (2 * half_thickness) as i128,
                height: if self.second_half_only {
                    half_down as i128
                } else {
                    (2 * half_down) as i128
                },
                denominator: (2 * self.scale.denominator) as i128,
            }
        } else {
            BarRectangle {
                left: if self.second_half_only {
                    half_across as i128
                } else {
                    0
                },
                top: (half_down - half_thickness) as i128,
                width: if self.second_half_only {
                    half_across as i128
                } else {
                    (2 * half_across) as i128
                },
                height: (2 * half_thickness) as i128,
                denominator: (2 * self.scale.denominator) as i128,
            }
        }
    }

    /// Computes [`SplitScreenBar::spec_rectangle`].
    pub fn rectangle(&self, resolution: Resolution) -> (rectangle: BarRectangle)
        ensures
            rectangle == self.spec_rectangle(resolution),
    {
        let scale_denominator: i128 = self.scale.denominator as i128;
        let half_thickness: i128 = (BASE_BAR_THICKNESS as i128) * (self.scale.numerator as i128);
        assert(0 <= resolution.width * scale_denominator <= 0xffff_ffff * 0xffff_ffff
            && 0 <= resolution.height * scale_denominator <= 0xffff_ffff * 0xffff_ffff)
            by (nonlinear_arith)
            requires
                0 <= resolution.width <= 0xffff_ffff,
                0 <= resolution.height <= 0xffff_ffff,
                0 <= scale_denominator <= 0xffff_ffff,
        ;
        let half_across: i128 = (resolution.width as i128) * scale_denominator;
        let half_down: i128 = (resolution.height as i128) * scale_denominator;
        if self.vertical {
            BarRectangle {
                left: half_across - half_thickness,
                top: if self.second_half_only {
                    half_down
                } else {
                    0
                },
                width: 2 * half_thickness,
                height: if self.second_half_only {
                    half_down
                } else {
                    2 * half_down
                },
                denominator: 2 * scale_denominator,
            }
        } else {
            BarRectangle {
                left: if self.second_half_only {
                    half_across
                } else {
                    0
                },
                top: half_down - half_thickness,
                width: if self.second_half_only {
                    half_across
                } else {
                    2 * half_across
                },
                height: 2 * half_thickness,
                denominator: 2 * scale_denominator,
            }
        }
    }
}

/// One step of drawing a frame.
#[derive(Copy, Clone, Debug, PartialEq, Eq)]
pub enum FrameCommand {
    /// Begin the pass on image `image_index` of the swapchain, with a depth
    /// image of 32-bit floats of the same size: colour is cleared to
    /// [`OPAQUE_BLACK`], depth to [`CLEAR_DEPTH`], and both are stored.
    BeginRendering { image_index: u32 },
    /// Draw into the part of the surface that viewport `viewport` takes.
    SetViewport { viewport: usize },
    /// Draw into the whole surface.
    SetFullViewport,
    /// Leave out the faces that `mode` names.
    SetCullMode { mode: CullMode },
    /// Fill the viewport with `color`, ignoring depth.
    DrawSkyBox { color: FloatColor },
    /// Bind the matrices of viewport `viewport`: its projection, with the
    /// camera's field of view, the viewport's aspect, [`NEAR_PLANE`] and
    /// [`FAR_PLANE`], and its view, from the camera's position along its
    /// direction with [`CAMERA_UP`] up, both left-handed.
    UploadMvp { viewport: usize },
    /// Bind sub-bitmap `lightmap` of the lightmap bitmap of the BSP as the
    /// lightmap; with `None`, bind plain white.
    BindLightmap { lightmap: Option<usize> },
    /// Draw geometry `geometry` of the BSP: bind its indices, its vertices,
    /// its texture coordinates, and its lightmap texture coordinates or,
    /// where `shares_texture_coords` is set, its texture coordinates once
    /// more; then bind `pipeline`, cull by `cull_mode`, bind what is the
    /// material's own, and draw all `triangle_count` triangles.
    DrawGeometry {
        geometry: usize,
        pipeline: VulkanPipelineType,
        cull_mode: CullMode,
        shares_texture_coords: bool,
        triangle_count: usize,
    },
    /// Draw `bar` in [`OPAQUE_BLACK`], ignoring depth.
    DrawBar { bar: SplitScreenBar },
    /// End the pass.
    EndRendering,
}

/// The scale of the bars on a surface of `resolution`: the lesser of its
/// width over 640 and its height over 480, but at least one.
pub open spec fn spec_line_scale(resolution: Resolution) -> LineScale {
    let by_width = resolution.width * 480 <= resolution.height * 640;
    let numerator = if by_width {
        resolution.width
    } else {
        resolution.height
    };
    let denominator = if by_width {
        640u32
    } else {
        480u32
    };
    if numerator <= denominator {
        LineScale { numerator: 1, denominator: 1 }
    } else {
        LineScale { numerator, denominator }
    }
}

/// Computes [`spec_line_scale`].
pub fn line_scale(resolution: Resolution) -> (scale: LineScale)
    ensures
        scale == spec_line_scale(resolution),
        scale.numerator >= scale.denominator >= 1,
{
    let by_width = (resolution.width as u64) * 480 <= (resolution.height as u64) * 640;
    let numerator = if by_width {
        resolution.width
    } else {
        resolution.height
    };
    let denominator: u32 = if by_width {
        640
    } else {
        480
    };
    if numerator <= denominator {
        LineScale { numerator: 1, denominator: 1 }
    } else {
        LineScale { numerator, denominator }
    }
}

/// The bars between `count` viewports on a surface of `resolution`: none
/// for one viewport; for more, a bar across the whole surface; for more
/// than two, also a bar down the surface, which covers only the lower half
/// where there are exactly three.
pub open spec fn split_screen_bars(count: nat, resolution: Resolution) -> Seq<SplitScreenBar> {
    let scale = spec_line_scale(resolution);
    let across = SplitScreenBar { vertical: false, second_half_only: false, scale };
    let down = SplitScreenBar { vertical: true, second_half_only: count == 3, scale };
    if count <= 1 {
        Seq::empty()
    } else if count == 2 {
        seq![across]
    } else {
        seq![across, down]
    }
}

/// The steps that draw the bars between `count` viewports.
pub open spec fn bar_commands(count: nat, resolution: Resolution) -> Seq<FrameCommand> {
    let bars = split_screen_bars(count, resolution);
    if bars.len() == 0 {
        Seq::empty()
    } else {
        seq![FrameCommand::SetFullViewport] + Seq::new(
            bars.len(),
            |i: int| FrameCommand::DrawBar { bar: bars[i] },
        )
    }
}

/// Whether `geometry` is drawn in the transparent pass: its shader is of a
/// transparent kind.
pub open spec fn geometry_is_transparent(
    shaders: Map<Seq<char>, ShaderView>,
    geometry: Geometry,
) -> bool {
    shaders.contains_key(geometry.shader@)
        && shaders[geometry.shader@].shader_type.spec_is_transparent()
}

/// The lightmap that `geometry` is drawn with: its own, or none where the
/// camera sees everything fully lit.
pub open spec fn desired_lightmap(geometry: Geometry, fullbright: bool) -> Option<usize> {
    if fullbright {
        None
    } else {
        geometry.lightmap_index
    }
}

/// The step that draws geometry `index` of the BSP, with the pipeline and
/// the cull mode of its material.
pub open spec fn draw_command(index: int, geometry: Geometry, transparent: bool) -> FrameCommand {
    FrameCommand::DrawGeometry {
        geometry: index as usize,
        pipeline: VulkanSimpleShaderMaterial::spec_pipeline(transparent),
        cull_mode: VulkanSimpleShaderMaterial::spec_cull_mode(transparent),
        shares_texture_coords: geometry.lightmap_vertices is None,
        triangle_count: geometry.indices@.len() as usize,
    }
}

/// The lightmap that is bound after one pass has gone through the first
/// `upto` geometries, where `bound` was bound before it; `None`: nothing
/// was bound yet.
pub open spec fn pass_bound(
    shaders: Map<Seq<char>, ShaderView>,
    geometries: Seq<Geometry>,
    transparent: bool,
    fullbright: bool,
    bound: Option<Option<usize>>,
    upto: nat,
) -> Option<Option<usize>>
    decreases upto,
{
    if upto == 0 {
        bound
    } else if geometry_is_transparent(shaders, geometries[upto - 1]) == transparent {
        Some(desired_lightmap(geometries[upto - 1], fullbright))
    } else {
        pass_bound(shaders, geometries, transparent, fullbright, bound, (upto - 1) as nat)
    }
}

/// The steps of one pass over the first `upto` geometries: each geometry
/// of the pass is drawn, in the order of the BSP, and before one whose
/// lightmap is not the one that is bound, its lightmap is bound.
pub open spec fn pass_commands(
    shaders: Map<Seq<char>, ShaderView>,
    geometries: Seq<Geometry>,
    transparent: bool,
    fullbright: bool,
    bound: Option<Option<usize>>,
    upto: nat,
) -> Seq<FrameCommand>
    decreases upto,
{
    if upto == 0 {
        Seq::empty()
    } else {
        let before = pass_commands(
            shaders,
            geometries,
            transparent,
            fullbright,
            bound,
            (upto - 1) as nat,
        );
        let bound_before = pass_bound(
            shaders,
            geometries,
            transparent,
            fullbright,
            bound,
            (upto - 1) as nat,
        );
        let geometry = geometries[upto - 1];
        let desired = desired_lightmap(geometry, fullbright);
        if geometry_is_transparent(shaders, geometry) != transparent {
            before
        } else if bound_before == Some(desired) {
            before.push(draw_command(upto - 1, geometry, transparent))
        } else {
            before.push(FrameCommand::BindLightmap { lightmap: desired }).push(
                draw_command(upto - 1, geometry, transparent),
            )
        }
    }
}

/// The sky that is seen from region `cluster` of the BSP that is drawn.
pub open spec fn sky_of(registry: Registry, cluster: Option<usize>) -> Option<Sky> {
    let bsp = registry.drawn_bsp();
    match cluster {
        Some(region) => if region < bsp.clusters.len() {
            match bsp.clusters[region as int].sky {
                Some(path) => if registry.skies.contains_key(path@) {
                    Some(registry.skies[path@])
                } else {
                    None
                },
                None => None,
            }
        } else {
            None
        },
        None => None,
    }
}

/// The step that lays the background of a viewport whose camera is in
/// region `cluster`: where a sky is seen from there, a box in the sky's
/// outdoor fog colour.
pub open spec fn sky_commands(registry: Registry, cluster: Option<usize>) -> Seq<FrameCommand> {
    match sky_of(registry, cluster) {
        Some(sky) => seq![
            FrameCommand::DrawSkyBox {
                color: [
                    sky.outdoor_fog_color[0],
                    sky.outdoor_fog_color[1],
                    sky.outdoor_fog_color[2],
                    FLOAT_ONE,
                ],
            },
        ],
        None => Seq::empty(),
    }
}

/// The steps that draw viewport `index`: set the viewport, cull nothing,
/// lay the background, bind the matrices, then draw the opaque geometries
/// of the BSP and after them the transparent ones.
pub open spec fn viewport_commands(
    registry: Registry,
    index: int,
    viewport: PlayerViewport,
    cluster: Option<usize>,
) -> Seq<FrameCommand> {
    let bsp = registry.drawn_bsp();
    let fullbright = viewport.camera.fullbright;
    let count = bsp.geometries.len();
    seq![
        FrameCommand::SetViewport { viewport: index as usize },
        FrameCommand::SetCullMode { mode: CullMode::Disabled },
    ] + sky_commands(registry, cluster) + seq![FrameCommand::UploadMvp { viewport: index as usize }]
        + pass_commands(registry.shaders, bsp.geometries, false, fullbright, None, count)
        + pass_commands(
        registry.shaders,
        bsp.geometries,
        true,
        fullbright,
        pass_bound(registry.shaders, bsp.geometries, false, fullbright, None, count),
        count,
    )
}

/// The region that holds the camera of viewport `viewport`, as the caller
/// found it; none where the caller names none.
pub open spec fn cluster_for(camera_clusters: Seq<Option<usize>>, viewport: int) -> Option<usize> {
    if 0 <= viewport < camera_clusters.len() {
        camera_clusters[viewport]
    } else {
        None
    }
}

/// The steps that draw the first `upto` viewports, one after the other.
pub open spec fn viewports_commands(
    registry: Registry,
    viewports: Seq<PlayerViewport>,
    camera_clusters: Seq<Option<usize>>,
    upto: nat,
) -> Seq<FrameCommand>
    decreases upto,
{
    if upto == 0 {
        Seq::empty()
    } else {
        viewports_commands(registry, viewports, camera_clusters, (upto - 1) as nat)
            + viewport_commands(
            registry,
            upto - 1,
            viewports[upto - 1],
            cluster_for(camera_clusters, upto - 1),
        )
    }
}

/// The steps of a whole frame: begin the pass, draw every viewport in
/// order, draw the bars between them, end the pass.
pub open spec fn frame_commands(
    registry: Registry,
    viewports: Seq<PlayerViewport>,
    resolution: Resolution,
    image_index: u32,
    camera_clusters: Seq<Option<usize>>,
) -> Seq<FrameCommand> {
    seq![FrameCommand::BeginRendering { image_index }] + viewports_commands(
        registry,
        viewports,
        camera_clusters,
        viewports.len(),
    ) + bar_commands(viewports.len(), resolution) + seq![FrameCommand::EndRendering]
}

} // verus!
