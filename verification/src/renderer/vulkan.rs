//! The Vulkan backend: what it decides of a frame and of its own making.

use vstd::prelude::*;
use crate::error::{Error, MResult};
use crate::renderer::data::{BSPView, Geometry, Sky, BSP};
use crate::renderer::parameters::{RendererParameters, Resolution};
use crate::renderer::player_viewport::PlayerViewport;
use crate::renderer::vulkan::helper::{
    build_swapchain,
    swapchain_settings,
    Format,
    SurfaceInfo,
    SwapchainCreateInfo,
};
use crate::renderer::vulkan::frame::{
    bar_commands,
    cluster_for,
    draw_command,
    frame_commands,
    geometry_is_transparent,
    pass_bound,
    pass_commands,
    sky_commands,
    sky_of,
    split_screen_bars,
    viewport_commands,
    viewports_commands,
};
use crate::renderer::vulkan::pipeline::VulkanPipelineType;
use crate::renderer::Renderer;
use crate::types::{FloatBits, FLOAT_ONE};

pub use crate::renderer::vulkan::frame::{
    line_scale,
    AcquireOutcome,
    BarRectangle,
    CullMode,
    FrameCommand,
    LineScale,
    PresentOutcome,
    SplitScreenBar,
    BASE_BAR_THICKNESS,
    CAMERA_UP,
    CLEAR_DEPTH,
    FAR_PLANE,
    NEAR_PLANE,
    OPAQUE_BLACK,
};

pub mod frame;
pub mod helper;
pub mod laws;
pub mod material;
pub mod pipeline;
pub mod vertex;

verus! {

/// The primary command buffers that the backend keeps ready.
pub const PRIMARY_COMMAND_BUFFER_COUNT: usize = 32;

/// The descriptor sets that the backend's pool has room for, so that the
/// sets of a frame never wait for room.
pub const DESCRIPTOR_SET_COUNT: usize = 16384;

/// What the backend holds of its surface.
#[derive(Copy, Clone, Debug, PartialEq, Eq)]
pub struct VulkanRenderer {
    current_resolution: Resolution,
    output_format: Format,
    swapchain: SwapchainCreateInfo,
    anisotropic_filtering: Option<FloatBits>,
}

impl VulkanRenderer {
    /// The size of the surface.
    pub closed spec fn spec_current_resolution(&self) -> Resolution {
        self.current_resolution
    }

    /// The colour format that frames are drawn in.
    pub closed spec fn spec_output_format(&self) -> Format {
        self.output_format
    }

    /// The settings of the swapchain.
    pub closed spec fn spec_swapchain(&self) -> SwapchainCreateInfo {
        self.swapchain
    }

    /// The level of anisotropic filtering that was asked for.
    pub closed spec fn spec_anisotropic_filtering(&self) -> Option<FloatBits> {
        self.anisotropic_filtering
    }

    /// The size of the surface.
    pub fn current_resolution(&self) -> (resolution: Resolution)
        ensures
            resolution == self.spec_current_resolution(),
    {
        self.current_resolution
    }

    /// The colour format that frames are drawn in.
    pub fn output_format(&self) -> (format: Format)
        ensures
            format == self.spec_output_format(),
    {
        self.output_format
    }

    /// The settings of the swapchain.
    pub fn swapchain(&self) -> (swapchain: SwapchainCreateInfo)
        ensures
            swapchain == self.spec_swapchain(),
    {
        self.swapchain
    }

    /// The level of anisotropic filtering that was asked for.
    pub fn anisotropic_filtering(&self) -> (level: Option<FloatBits>)
        ensures
            level == self.spec_anisotropic_filtering(),
    {
        self.anisotropic_filtering
    }

    /// Settles the backend for a surface: frames are drawn in the first
    /// colour format that the surface reports, through a swapchain as
    /// [`build_swapchain`] settles it.
    ///
    /// Fails with a `GraphicsAPIError` of the backend `"Vulkan"` exactly
    /// where the surface reports no colour format or supports no way of
    /// compositing.
    pub fn new(renderer_parameters: &RendererParameters, surface: &SurfaceInfo) -> (result: MResult<
        VulkanRenderer,
    >)
        ensures
            match result {
                Ok(backend) => {
                    &&& surface.formats@.len() > 0
                    &&& surface.supported_composite_alpha@.len() > 0
                    &&& backend.spec_current_resolution() == renderer_parameters.resolution
                    &&& backend.spec_output_format() == surface.formats@[0]
                    &&& backend.spec_swapchain() == swapchain_settings(
                        surface.formats@[0],
                        *renderer_parameters,
                        surface.min_image_count,
                        surface.supported_composite_alpha@[0],
                    )
                    &&& backend.spec_anisotropic_filtering()
                        == renderer_parameters.anisotropic_filtering
                },
                Err(error) => {
                    &&& error matches Error::GraphicsAPIError { backend, message } && backend@
                        == "Vulkan"@ && message@ == if surface.formats@.len() == 0 {
                        "The surface reports no color format"@
                    } else {
                        "The surface supports no composite alpha mode"@
                    }
                    &&& surface.formats@.len() == 0 || surface.supported_composite_alpha@.len()
                        == 0
                },
            },
    {
        if surface.formats.len() == 0 {
            return Err(Error::from_vulkan_error("The surface reports no color format".to_owned()));
        }
        let output_format = surface.formats[0];
        match build_swapchain(output_format, renderer_parameters, surface) {
            Ok(swapchain) => Ok(
                VulkanRenderer {
                    current_resolution: renderer_parameters.resolution,
                    output_format,
                    swapchain,
                    anisotropic_filtering: renderer_parameters.anisotropic_filtering,
                },
            ),
            Err(error) => Err(error),
        }
    }

    /// Takes the new size of the surface: the swapchain is made again with
    /// the size that `renderer_parameters` holds and everything else as it
    /// was, and the size is kept as the current one.
    pub fn rebuild_swapchain(&mut self, renderer_parameters: &RendererParameters) -> (result:
        MResult<()>)
        ensures
            result is Ok,
            final(self).spec_current_resolution() == renderer_parameters.resolution,
            final(self).spec_swapchain() == (SwapchainCreateInfo {
                image_extent: renderer_parameters.resolution,
                ..old(self).spec_swapchain()
            }),
            final(self).spec_output_format() == old(self).spec_output_format(),
            final(self).spec_anisotropic_filtering() == old(self).spec_anisotropic_filtering(),
    {
        self.swapchain =
        SwapchainCreateInfo { image_extent: renderer_parameters.resolution, ..self.swapchain };
        self.current_resolution = renderer_parameters.resolution;
        Ok(())
    }

    /// Lists the steps that draw a frame, once the next image of the
    /// swapchain was asked for. `camera_clusters` holds, for each viewport,
    /// the region of the current BSP that the caller found its camera in.
    ///
    /// Fails with `SwapchainOutOfDate`, and draws nothing, exactly where no
    /// image could be had because the swapchain is out of date.
    pub fn draw_frame(
        renderer: &Renderer,
        acquired: AcquireOutcome,
        camera_clusters: &Vec<Option<usize>>,
    ) -> (result: MResult<Vec<FrameCommand>>)
        requires
            renderer.wf(),
        ensures
            match acquired {
                AcquireOutcome::OutOfDate => result == Err::<Vec<FrameCommand>, Error>(
                    Error::SwapchainOutOfDate,
                ),
                AcquireOutcome::Acquired { image_index, .. } => result matches Ok(commands)
                    && commands@ == frame_commands(
                    renderer.registry(),
                    renderer.viewports(),
                    renderer.backend().spec_current_resolution(),
                    image_index,
                    camera_clusters@,
                ),
            },
    {
        match acquired {
            AcquireOutcome::OutOfDate => Err(Error::SwapchainOutOfDate),
            AcquireOutcome::Acquired { image_index, .. } => Ok(
                VulkanRenderer::draw_frame_infallible(renderer, image_index, camera_clusters),
            ),
        }
    }

    /// Whether a frame was shown as it should be: it was presented, and
    /// the image it was drawn to still fitted the surface. After `false` the
    /// swapchain is to be rebuilt.
    pub fn frame_shown(acquired: AcquireOutcome, presented: PresentOutcome) -> (shown: bool)
        ensures
            shown == (acquired matches AcquireOutcome::Acquired { suboptimal, .. } && !suboptimal
                && presented is Presented),
    {
        match acquired {
            AcquireOutcome::Acquired { suboptimal, .. } => match presented {
                PresentOutcome::Presented => !suboptimal,
                PresentOutcome::OutOfDate => false,
            },
            AcquireOutcome::OutOfDate => false,
        }
    }

    fn draw_frame_infallible(
        renderer: &Renderer,
        image_index: u32,
        camera_clusters: &Vec<Option<usize>>,
    ) -> (commands: Vec<FrameCommand>)
        requires
            renderer.wf(),
        ensures
            commands@ == frame_commands(
                renderer.registry(),
                renderer.viewports(),
                renderer.backend().spec_current_resolution(),
                image_index,
                camera_clusters@,
            ),
    {
        let ghost registry = renderer.registry();
        let ghost viewports = renderer.viewports();
        let ghost begin = seq![FrameCommand::BeginRendering { image_index }];
        let no_geometries: Vec<Geometry> = Vec::new();
        let bsp: Option<&BSP> = renderer.drawn_bsp();
        let geometries: &Vec<Geometry> = match bsp {
            Some(current) => &current.geometries,
            None => &no_geometries,
        };
        assert(geometries@ == registry.drawn_bsp().geometries);
        let count = renderer.viewport_count();
        let mut commands: Vec<FrameCommand> = Vec::new();
        commands.push(FrameCommand::BeginRendering { image_index });
        assert(commands@ =~= begin);
        let mut index: usize = 0;
        while index < count
            invariant
                renderer.wf(),
                registry == renderer.registry(),
                viewports == renderer.viewports(),
                count == viewports.len(),
                index <= count,
                geometries@ == registry.drawn_bsp().geometries,
                bsp matches Some(current) ==> current@ == registry.drawn_bsp(),
                bsp is None ==> registry.drawn_bsp() == BSPView::empty(),
                commands@ == begin + viewports_commands(
                    registry,
                    viewports,
                    camera_clusters@,
                    index as nat,
                ),
            decreases count - index,
        {
            let ghost start = commands@;
            let viewport = renderer.get_viewport(index).unwrap();
            let cluster = if index < camera_clusters.len() {
                camera_clusters[index]
            } else {
                None
            };
            VulkanRenderer::draw_viewport(
                renderer,
                bsp,
                geometries,
                index,
                &viewport,
                cluster,
                &mut commands,
            );
            assert(commands@ == start + viewport_commands(
                registry,
                index as int,
                viewports[index as int],
                cluster_for(camera_clusters@, index as int),
            ));
            assert(commands@ =~= begin + viewports_commands(
                registry,
                viewports,
                camera_clusters@,
                (index + 1) as nat,
            ));
            index = index + 1;
        }
        let ghost drawn = commands@;
        VulkanRenderer::draw_split_screen_bars(
            count,
            renderer.current_resolution(),
            &mut commands,
        );
        commands.push(FrameCommand::EndRendering);
        assert(commands@ =~= drawn + bar_commands(
            count as nat,
            renderer.backend().spec_current_resolution(),
        ) + seq![FrameCommand::EndRendering]);
        commands
    }

    /// Adds the steps that draw viewport `index` to `commands`.
    fn draw_viewport(
        renderer: &Renderer,
        bsp: Option<&BSP>,
        geometries: &Vec<Geometry>,
        index: usize,
        viewport: &PlayerViewport,
        cluster: Option<usize>,
        commands: &mut Vec<FrameCommand>,
    )
        requires
            renderer.wf(),
            geometries@ == renderer.registry().drawn_bsp().geometries,
            bsp matches Some(current) ==> current@ == renderer.registry().drawn_bsp(),
            bsp is None ==> renderer.registry().drawn_bsp() == BSPView::empty(),
        ensures
            final(commands)@ == old(commands)@ + viewport_commands(
                renderer.registry(),
                index as int,
                *viewport,
                cluster,
            ),
    {
        let ghost registry = renderer.registry();
        let ghost start = commands@;
        commands.push(FrameCommand::SetViewport { viewport: index });
        commands.push(FrameCommand::SetCullMode { mode: CullMode::Disabled });
        match VulkanRenderer::find_sky(renderer, bsp, cluster) {
            Some(sky) => {
                commands.push(
                    FrameCommand::DrawSkyBox {
                        color: [
                            sky.outdoor_fog_color[0],
                            sky.outdoor_fog_color[1],
                            sky.outdoor_fog_color[2],
                            FLOAT_ONE,
                        ],
                    },
                );
            },
            None => {},
        }
        commands.push(FrameCommand::UploadMvp { viewport: index });
        let ghost head = seq![
            FrameCommand::SetViewport { viewport: index },
            FrameCommand::SetCullMode { mode: CullMode::Disabled },
        ] + sky_commands(registry, cluster) + seq![FrameCommand::UploadMvp { viewport: index }];
        assert(commands@ =~= start + head);
        let fullbright = viewport.camera.fullbright;
        let bound = VulkanRenderer::draw_pass(
            renderer,
            geometries,
            false,
            fullbright,
            None,
            commands,
        );
        let ghost opaque = pass_commands(
            registry.shaders,
            geometries@,
            false,
            fullbright,
            None,
            geometries@.len(),
        );
        assert(commands@ == start + head + opaque);
        let _ = VulkanRenderer::draw_pass(renderer, geometries, true, fullbright, bound, commands);
        let ghost transparent = pass_commands(
            registry.shaders,
            geometries@,
            true,
            fullbright,
            bound,
            geometries@.len(),
        );
        assert(commands@ == start + head + opaque + transparent);
        assert(viewport_commands(registry, index as int, *viewport, cluster) == head + opaque
            + transparent);
        assert(start + head + opaque + transparent =~= start + (head + opaque + transparent));
    }

    /// The sky that is seen from region `cluster` of `bsp`, the BSP that is drawn.
    fn find_sky<'a>(renderer: &'a Renderer, bsp: Option<&BSP>, cluster: Option<usize>) -> (sky:
        Option<&'a Sky>)
        requires
            renderer.wf(),
            bsp matches Some(current) ==> current@ == renderer.registry().drawn_bsp(),
            bsp is None ==> renderer.registry().drawn_bsp() == BSPView::empty(),
        ensures
            match sky {
                Some(found) => sky_of(renderer.registry(), cluster) == Some(*found),
                None => sky_of(renderer.registry(), cluster) is None,
            },
    {
        match bsp {
            Some(current) => match cluster {
                Some(region) => {
                    if region < current.clusters.len() {
                        match &current.clusters[region].sky {
                            Some(path) => renderer.find_sky(path),
                            None => None,
                        }
                    } else {
                        None
                    }
                },
                None => None,
            },
            None => None,
        }
    }

    /// Adds the steps of one pass over `geometries` to `commands`, and
    /// tells which lightmap is bound after it.
    fn draw_pass(
        renderer: &Renderer,
        geometries: &Vec<Geometry>,
        transparent: bool,
        fullbright: bool,
        bound: Option<Option<usize>>,
        commands: &mut Vec<FrameCommand>,
    ) -> (bound_after: Option<Option<usize>>)
        requires
            renderer.wf(),
        ensures
            final(commands)@ == old(commands)@ + pass_commands(
                renderer.registry().shaders,
                geometries@,
                transparent,
                fullbright,
                bound,
                geometries@.len(),
            ),
            bound_after == pass_bound(
                renderer.registry().shaders,
                geometries@,
                transparent,
                fullbright,
                bound,
                geometries@.len(),
            ),
    {
        let ghost start = commands@;
        let ghost shaders = renderer.registry().shaders;
        let mut current = bound;
        let mut i: usize = 0;
        assert(commands@ =~= start + Seq::<FrameCommand>::empty());
        while i < geometries.len()
            invariant
                renderer.wf(),
                shaders == renderer.registry().shaders,
                i <= geometries@.len(),
                commands@ == start + pass_commands(
                    shaders,
                    geometries@,
                    transparent,
                    fullbright,
                    bound,
                    i as nat,
                ),
                current == pass_bound(shaders, geometries@, transparent, fullbright, bound, i as nat),
            decreases geometries@.len() - i,
        {
            let geometry = &geometries[i];
            let ghost before = pass_commands(
                shaders,
                geometries@,
                transparent,
                fullbright,
                bound,
                i as nat,
            );
            let in_transparent_pass = match renderer.find_shader(&geometry.shader) {
                Some(shader) => shader.shader_type.is_transparent(),
                None => false,
            };
            assert(in_transparent_pass == geometry_is_transparent(shaders, *geometry));
            if in_transparent_pass == transparent {
                let desired = if fullbright {
                    None
                } else {
                    geometry.lightmap_index
                };
                let rebind = match current {
                    Some(lightmap) => match lightmap {
                        Some(now) => match desired {
                            Some(wanted) => now != wanted,
                            None => true,
                        },
                        None => desired.is_some(),
                    },
                    None => true,
                };
                assert(rebind == (current != Some(desired)));
                if rebind {
                    commands.push(FrameCommand::BindLightmap { lightmap: desired });
                    current = Some(desired);
                }
                let draw = FrameCommand::DrawGeometry {
                    geometry: i,
                    pipeline: if transparent {
                        VulkanPipelineType::SimpleTextureTransparent
                    } else {
                        VulkanPipelineType::SimpleTexture
                    },
                    cull_mode: if transparent {
                        CullMode::Disabled
                    } else {
                        CullMode::Back
                    },
                    shares_texture_coords: geometry.lightmap_vertices.is_none(),
                    triangle_count: geometry.indices.len(),
                };
                assert(draw == draw_command(i as int, *geometry, transparent));
                commands.push(draw);
                assert(commands@ =~= start + pass_commands(
                    shaders,
                    geometries@,
                    transparent,
                    fullbright,
                    bound,
                    (i + 1) as nat,
                ));
            }
            i = i + 1;
        }
        current
    }

    /// Adds the steps that draw the bars between `viewport_count` viewports
    /// to `commands`.
    fn draw_split_screen_bars(
        viewport_count: usize,
        resolution: Resolution,
        commands: &mut Vec<FrameCommand>,
    )
        ensures
            final(commands)@ == old(commands)@ + bar_commands(viewport_count as nat, resolution),
    {
        let ghost start = commands@;
        let ghost bars = split_screen_bars(viewport_count as nat, resolution);
        if viewport_count <= 1 {
            assert(commands@ =~= start + bar_commands(viewport_count as nat, resolution));
            return ;
        }
        let scale = line_scale(resolution);
        commands.push(FrameCommand::SetFullViewport);
        commands.push(
            FrameCommand::DrawBar {
                bar: SplitScreenBar { vertical: false, second_half_only: false, scale },
            },
        );
        if viewport_count > 2 {
            commands.push(
                FrameCommand::DrawBar {
                    bar: SplitScreenBar {
                        vertical: true,
                        second_half_only: viewport_count == 3,
                        scale,
                    },
                },
            );
        }
        assert(commands@ =~= start + bar_commands(viewport_count as nat, resolution));
    }
}

} // verus!
