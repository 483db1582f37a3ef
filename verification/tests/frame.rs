use magellanicus::error::Error;
use magellanicus::renderer::parameters::bitmap::{
    AddBitmapBitmapParameter, AddBitmapParameter, BitmapFormat, BitmapType,
};
use magellanicus::renderer::parameters::bsp::{
    AddBSPParameter, AddBSPParameterCluster, AddBSPParameterLightmapMaterial,
    AddBSPParameterLightmapSet,
};
use magellanicus::renderer::parameters::shader::{
    AddShaderBasicShaderData, AddShaderData, AddShaderParameter, ShaderType,
};
use magellanicus::renderer::parameters::sky::AddSkyParameter;
use magellanicus::renderer::parameters::{RendererParameters, Resolution};
use magellanicus::renderer::player_viewport::Camera;
use magellanicus::renderer::vulkan::helper::{CompositeAlpha, SurfaceInfo};
use magellanicus::renderer::vulkan::pipeline::VulkanPipelineType;
use magellanicus::renderer::vulkan::{
    line_scale, AcquireOutcome, BarRectangle, CullMode, FrameCommand, LineScale, PresentOutcome,
    SplitScreenBar, VulkanRenderer, BASE_BAR_THICKNESS, CAMERA_UP, CLEAR_DEPTH, FAR_PLANE,
    NEAR_PLANE, OPAQUE_BLACK,
};
use magellanicus::renderer::Renderer;
use magellanicus::vertex::{LightmapVertex, ModelTriangle, ModelVertex};

fn renderer_of(viewports: usize, width: u32, height: u32) -> Renderer {
    Renderer::new(
        RendererParameters {
            resolution: Resolution { width, height },
            number_of_viewports: viewports,
            vsync: true,
            anisotropic_filtering: None,
        },
        &SurfaceInfo {
            formats: vec![50],
            min_image_count: 2,
            supported_composite_alpha: vec![CompositeAlpha::Opaque],
        },
    )
    .unwrap()
}

fn renderer(viewports: usize) -> Renderer {
    renderer_of(viewports, 640, 480)
}

fn bitmap(count: usize) -> AddBitmapParameter {
    AddBitmapParameter {
        bitmaps: (0..count)
            .map(|_| AddBitmapBitmapParameter {
                format: BitmapFormat::A8,
                bitmap_type: BitmapType::Dim2D,
                resolution: Resolution { width: 2, height: 2 },
                mipmap_count: 1,
                data: vec![0x00, 0x55, 0xAA, 0xFF],
            })
            .collect(),
        sequences: vec![],
    }
}

fn shader(kind: ShaderType) -> AddShaderParameter {
    AddShaderParameter {
        data: AddShaderData::BasicShader(AddShaderBasicShaderData {
            bitmap: Some("b".to_string()),
            shader_type: kind,
        }),
    }
}

fn vertex(x: f32, y: f32) -> ModelVertex {
    ModelVertex {
        position: [x.to_bits(), y.to_bits(), 0.0f32.to_bits()],
        normal: [0.0f32.to_bits(), 0.0f32.to_bits(), 1.0f32.to_bits()],
        binormal: [0.0f32.to_bits(), 1.0f32.to_bits(), 0.0f32.to_bits()],
        tangent: [1.0f32.to_bits(), 0.0f32.to_bits(), 0.0f32.to_bits()],
        texture_coords: [x.to_bits(), y.to_bits()],
    }
}

/// A material of `triangles` triangles that cover the near plane.
fn material(shader: &str, lit: bool, triangles: usize) -> AddBSPParameterLightmapMaterial {
    let vertices = vec![vertex(-1.0, -1.0), vertex(1.0, -1.0), vertex(1.0, 1.0), vertex(-1.0, 1.0)];
    AddBSPParameterLightmapMaterial {
        lightmap_vertices: if lit {
            Some(vec![
                LightmapVertex { lightmap_texture_coords: [0, 0] };
                vertices.len()
            ])
        } else {
            None
        },
        shader_vertices: vertices,
        indices: vec![ModelTriangle { indices: [0, 1, 2] }; triangles],
        shader: shader.to_string(),
    }
}

fn set(lightmap_index: Option<usize>, materials: Vec<AddBSPParameterLightmapMaterial>) -> AddBSPParameterLightmapSet {
    AddBSPParameterLightmapSet { lightmap_index, materials }
}

/// A renderer with the bitmap "b" of three sub-bitmaps, the opaque shader
/// "o", the transparent shader "t" and the sky "k".
fn loaded(viewports: usize) -> Renderer {
    let mut renderer = renderer(viewports);
    renderer.add_bitmap("b", bitmap(3)).unwrap();
    renderer.add_shader("o", shader(ShaderType::Environment)).unwrap();
    renderer.add_shader("t", shader(ShaderType::TransparentChicago)).unwrap();
    renderer
        .add_sky(
            "k",
            AddSkyParameter {
                outdoor_fog_color: [0.25f32.to_bits(), 0.5f32.to_bits(), 0.75f32.to_bits()],
                indoor_fog_color: [0, 0, 0],
                fog_density: 0,
                bitmap: None,
                model: None,
            },
        )
        .unwrap();
    renderer
}

fn acquired(image_index: u32) -> AcquireOutcome {
    AcquireOutcome::Acquired { image_index, suboptimal: false }
}

fn opaque(geometry: usize, shares_texture_coords: bool, triangle_count: usize) -> FrameCommand {
    FrameCommand::DrawGeometry {
        geometry,
        pipeline: VulkanPipelineType::SimpleTexture,
        cull_mode: CullMode::Back,
        shares_texture_coords,
        triangle_count,
    }
}

fn transparent(geometry: usize, shares_texture_coords: bool, triangle_count: usize) -> FrameCommand {
    FrameCommand::DrawGeometry {
        geometry,
        pipeline: VulkanPipelineType::SimpleTextureTransparent,
        cull_mode: CullMode::Disabled,
        shares_texture_coords,
        triangle_count,
    }
}

fn head(viewport: usize) -> Vec<FrameCommand> {
    vec![
        FrameCommand::SetViewport { viewport },
        FrameCommand::SetCullMode { mode: CullMode::Disabled },
        FrameCommand::UploadMvp { viewport },
    ]
}

fn bar(vertical: bool, second_half_only: bool) -> FrameCommand {
    FrameCommand::DrawBar {
        bar: SplitScreenBar {
            vertical,
            second_half_only,
            scale: LineScale { numerator: 1, denominator: 1 },
        },
    }
}

fn count(commands: &[FrameCommand], wanted: fn(&FrameCommand) -> bool) -> usize {
    commands.iter().filter(|command| wanted(command)).count()
}

fn is_mvp_upload(command: &FrameCommand) -> bool {
    matches!(command, FrameCommand::UploadMvp { .. })
}

fn is_color_fill(command: &FrameCommand) -> bool {
    matches!(
        command,
        FrameCommand::BeginRendering { .. }
            | FrameCommand::DrawSkyBox { .. }
            | FrameCommand::DrawBar { .. }
    )
}

fn is_draw(command: &FrameCommand) -> bool {
    matches!(command, FrameCommand::DrawGeometry { .. })
}

#[test]
fn constants_are_the_bits_of_their_numbers() {
    assert_eq!(f32::from_bits(NEAR_PLANE), 0.05);
    assert_eq!(f32::from_bits(FAR_PLANE), 2250.0);
    assert_eq!(CAMERA_UP.map(f32::from_bits), [0.0, 0.0, -1.0]);
    assert_eq!(OPAQUE_BLACK.map(f32::from_bits), [0.0, 0.0, 0.0, 1.0]);
    assert_eq!(f32::from_bits(CLEAR_DEPTH), 1.0);
    assert_eq!(BASE_BAR_THICKNESS, 2);
}

#[test]
fn frame_without_assets_is_one_cleared_pass() {
    let renderer = renderer(1);
    let commands = renderer.draw_frame(acquired(0), &vec![None]).unwrap();
    assert_eq!(
        commands,
        vec![
            FrameCommand::BeginRendering { image_index: 0 },
            FrameCommand::SetViewport { viewport: 0 },
            FrameCommand::SetCullMode { mode: CullMode::Disabled },
            FrameCommand::UploadMvp { viewport: 0 },
            FrameCommand::EndRendering,
        ]
    );
    assert_eq!(count(&commands, is_draw), 0);
    assert_eq!(count(&commands, is_color_fill), 1);
    assert!(VulkanRenderer::frame_shown(acquired(0), PresentOutcome::Presented));
}

#[test]
fn frame_on_out_of_date_swapchain_draws_nothing() {
    let renderer = renderer(1);
    assert_eq!(
        renderer.draw_frame(AcquireOutcome::OutOfDate, &vec![None]),
        Err(Error::SwapchainOutOfDate)
    );
    assert_eq!(
        VulkanRenderer::draw_frame(&renderer, AcquireOutcome::OutOfDate, &vec![]),
        Err(Error::SwapchainOutOfDate)
    );
}

#[test]
fn frame_is_shown_when_presented_on_a_fitting_image() {
    let good = AcquireOutcome::Acquired { image_index: 1, suboptimal: false };
    let suboptimal = AcquireOutcome::Acquired { image_index: 1, suboptimal: true };
    assert!(VulkanRenderer::frame_shown(good, PresentOutcome::Presented));
    assert!(!VulkanRenderer::frame_shown(good, PresentOutcome::OutOfDate));
    assert!(!VulkanRenderer::frame_shown(suboptimal, PresentOutcome::Presented));
    assert!(!VulkanRenderer::frame_shown(suboptimal, PresentOutcome::OutOfDate));
    assert!(!VulkanRenderer::frame_shown(AcquireOutcome::OutOfDate, PresentOutcome::Presented));
}

#[test]
fn minimal_bsp_issues_one_opaque_draw() {
    let mut renderer = loaded(1);
    renderer
        .add_bsp(
            "m",
            AddBSPParameter {
                lightmap_bitmap: None,
                lightmap_sets: vec![set(None, vec![material("o", false, 2)])],
                clusters: vec![],
            },
        )
        .unwrap();
    renderer.set_current_bsp(Some("m")).unwrap();
    let commands = renderer.draw_frame(acquired(3), &vec![None]).unwrap();
    assert_eq!(
        commands,
        vec![
            FrameCommand::BeginRendering { image_index: 3 },
            FrameCommand::SetViewport { viewport: 0 },
            FrameCommand::SetCullMode { mode: CullMode::Disabled },
            FrameCommand::UploadMvp { viewport: 0 },
            FrameCommand::BindLightmap { lightmap: None },
            opaque(0, true, 2),
            FrameCommand::EndRendering,
        ]
    );
    assert_eq!(count(&commands, is_draw), 1);
    assert!(VulkanPipelineType::SimpleTexture.depth_access().depth_state().write_enable);
    assert!(VulkanRenderer::frame_shown(acquired(3), PresentOutcome::Presented));
}

#[test]
fn bsp_that_is_not_current_is_not_drawn() {
    let mut renderer = loaded(1);
    renderer
        .add_bsp(
            "m",
            AddBSPParameter {
                lightmap_bitmap: None,
                lightmap_sets: vec![set(None, vec![material("o", false, 1)])],
                clusters: vec![],
            },
        )
        .unwrap();
    let commands = renderer.draw_frame(acquired(0), &vec![None]).unwrap();
    assert_eq!(count(&commands, is_draw), 0);
    renderer.set_current_bsp(Some("m")).unwrap();
    assert_eq!(count(&renderer.draw_frame(acquired(0), &vec![None]).unwrap(), is_draw), 1);
    renderer.set_current_bsp(None).unwrap();
    assert_eq!(count(&renderer.draw_frame(acquired(0), &vec![None]).unwrap(), is_draw), 0);
}

fn mixed_bsp() -> AddBSPParameter {
    AddBSPParameter {
        lightmap_bitmap: Some("b".to_string()),
        lightmap_sets: vec![
            // geometries 0, 1, 2
            set(Some(0), vec![material("o", true, 1), material("t", true, 2), material("o", true, 3)]),
            // geometries 3, 4
            set(Some(1), vec![material("t", false, 4), material("o", false, 5)]),
            // geometries 5, 6
            set(None, vec![material("o", false, 6), material("t", false, 7)]),
            // geometry 7
            set(Some(1), vec![material("t", true, 8)]),
        ],
        clusters: vec![
            AddBSPParameterCluster { sky: None },
            AddBSPParameterCluster { sky: Some("k".to_string()) },
        ],
    }
}

#[test]
fn opaque_geometries_come_first_and_lightmaps_are_bound_on_change() {
    let mut renderer = loaded(1);
    renderer.add_bsp("m", mixed_bsp()).unwrap();
    renderer.set_current_bsp(Some("m")).unwrap();
    let commands = renderer.draw_frame(acquired(0), &vec![Some(0)]).unwrap();
    let mut expected = vec![FrameCommand::BeginRendering { image_index: 0 }];
    expected.extend(head(0));
    expected.extend([
        FrameCommand::BindLightmap { lightmap: Some(0) },
        opaque(0, false, 1),
        opaque(2, false, 3),
        FrameCommand::BindLightmap { lightmap: Some(1) },
        opaque(4, true, 5),
        FrameCommand::BindLightmap { lightmap: None },
        opaque(5, true, 6),
        FrameCommand::BindLightmap { lightmap: Some(0) },
        transparent(1, false, 2),
        FrameCommand::BindLightmap { lightmap: Some(1) },
        transparent(3, true, 4),
        FrameCommand::BindLightmap { lightmap: None },
        transparent(6, true, 7),
        FrameCommand::BindLightmap { lightmap: Some(1) },
        transparent(7, false, 8),
        FrameCommand::EndRendering,
    ]);
    assert_eq!(commands, expected);
}

#[test]
fn transparent_pass_keeps_the_lightmap_that_the_opaque_pass_left() {
    let mut renderer = loaded(1);
    renderer
        .add_bsp(
            "m",
            AddBSPParameter {
                lightmap_bitmap: Some("b".to_string()),
                lightmap_sets: vec![set(
                    Some(2),
                    vec![material("t", true, 1), material("o", true, 1)],
                )],
                clusters: vec![],
            },
        )
        .unwrap();
    renderer.set_current_bsp(Some("m")).unwrap();
    let commands = renderer.draw_frame(acquired(0), &vec![]).unwrap();
    let mut expected = vec![FrameCommand::BeginRendering { image_index: 0 }];
    expected.extend(head(0));
    expected.extend([
        FrameCommand::BindLightmap { lightmap: Some(2) },
        opaque(1, false, 1),
        transparent(0, false, 1),
        FrameCommand::EndRendering,
    ]);
    assert_eq!(commands, expected);
}

#[test]
fn fullbright_camera_binds_no_lightmap() {
    let mut renderer = loaded(1);
    renderer.add_bsp("m", mixed_bsp()).unwrap();
    renderer.set_current_bsp(Some("m")).unwrap();
    renderer
        .set_camera_for_viewport(0, Camera { fullbright: true, ..Camera::default() })
        .unwrap();
    let commands = renderer.draw_frame(acquired(0), &vec![None]).unwrap();
    let binds: Vec<&FrameCommand> = commands
        .iter()
        .filter(|command| matches!(command, FrameCommand::BindLightmap { .. }))
        .collect();
    assert_eq!(binds, vec![&FrameCommand::BindLightmap { lightmap: None }]);
    assert_eq!(commands[4], FrameCommand::BindLightmap { lightmap: None });
    assert_eq!(count(&commands, is_draw), 8);
}

#[test]
fn sky_of_the_camera_cluster_lays_the_background() {
    let mut renderer = loaded(2);
    renderer.add_bsp("m", mixed_bsp()).unwrap();
    renderer.set_current_bsp(Some("m")).unwrap();
    // viewport 0 in the cluster with the sky, viewport 1 in a cluster that is not there
    let commands = renderer.draw_frame(acquired(0), &vec![Some(1), Some(2)]).unwrap();
    assert_eq!(commands[1], FrameCommand::SetViewport { viewport: 0 });
    assert_eq!(commands[2], FrameCommand::SetCullMode { mode: CullMode::Disabled });
    assert_eq!(
        commands[3],
        FrameCommand::DrawSkyBox {
            color: [0.25f32.to_bits(), 0.5f32.to_bits(), 0.75f32.to_bits(), 1.0f32.to_bits()]
        }
    );
    assert_eq!(commands[4], FrameCommand::UploadMvp { viewport: 0 });
    assert_eq!(
        count(&commands, |command| matches!(command, FrameCommand::DrawSkyBox { .. })),
        1
    );
    // no sky: cluster without one, no cluster, too few clusters given
    for clusters in [vec![Some(0), None], vec![], vec![None]] {
        let commands = renderer.draw_frame(acquired(0), &clusters).unwrap();
        assert_eq!(
            count(&commands, |command| matches!(command, FrameCommand::DrawSkyBox { .. })),
            0
        );
    }
}

#[test]
fn every_viewport_is_drawn_in_order() {
    let mut renderer = loaded(3);
    renderer
        .add_bsp(
            "m",
            AddBSPParameter {
                lightmap_bitmap: None,
                lightmap_sets: vec![set(None, vec![material("o", false, 1)])],
                clusters: vec![],
            },
        )
        .unwrap();
    renderer.set_current_bsp(Some("m")).unwrap();
    let commands = renderer.draw_frame(acquired(7), &vec![None, None, None]).unwrap();
    let mut expected = vec![FrameCommand::BeginRendering { image_index: 7 }];
    for viewport in 0..3 {
        expected.extend(head(viewport));
        expected.push(FrameCommand::BindLightmap { lightmap: None });
        expected.push(opaque(0, true, 1));
    }
    expected.push(FrameCommand::SetFullViewport);
    expected.push(bar(false, false));
    expected.push(bar(true, true));
    expected.push(FrameCommand::EndRendering);
    assert_eq!(commands, expected);
}

#[test]
fn one_viewport_has_no_bars() {
    let commands = renderer(1).draw_frame(acquired(0), &vec![]).unwrap();
    assert_eq!(count(&commands, |c| matches!(c, FrameCommand::DrawBar { .. })), 0);
    assert_eq!(count(&commands, |c| matches!(c, FrameCommand::SetFullViewport)), 0);
}

#[test]
fn two_viewports_have_a_bar_across() {
    let commands = renderer(2).draw_frame(acquired(0), &vec![]).unwrap();
    let tail = &commands[commands.len() - 3..];
    assert_eq!(tail, [FrameCommand::SetFullViewport, bar(false, false), FrameCommand::EndRendering]);
    assert_eq!(count(&commands, |c| matches!(c, FrameCommand::DrawBar { .. })), 1);
}

#[test]
fn three_viewports_have_a_bar_across_and_half_a_bar_down() {
    let commands = renderer(3).draw_frame(acquired(0), &vec![]).unwrap();
    let tail = &commands[commands.len() - 4..];
    assert_eq!(
        tail,
        [
            FrameCommand::SetFullViewport,
            bar(false, false),
            bar(true, true),
            FrameCommand::EndRendering
        ]
    );
}

#[test]
fn four_viewports_have_a_bar_across_and_a_whole_bar_down() {
    let commands = renderer(4).draw_frame(acquired(0), &vec![]).unwrap();
    let tail = &commands[commands.len() - 4..];
    assert_eq!(
        tail,
        [
            FrameCommand::SetFullViewport,
            bar(false, false),
            bar(true, false),
            FrameCommand::EndRendering
        ]
    );
}

#[test]
fn matrices_are_bound_once_for_each_viewport() {
    for viewports in 1..=4 {
        let mut renderer = loaded(viewports);
        renderer.add_bsp("m", mixed_bsp()).unwrap();
        renderer.set_current_bsp(Some("m")).unwrap();
        let commands = renderer.draw_frame(acquired(0), &vec![Some(1); viewports]).unwrap();
        assert_eq!(count(&commands, is_mvp_upload), viewports);
        assert!(count(&commands, is_color_fill) >= viewports);
        assert_eq!(count(&commands, is_draw), 8 * viewports);
    }
}

#[test]
fn colour_is_laid_once_for_the_clearing_each_sky_and_each_bar() {
    let expected_without_sky = [1, 2, 3, 3];
    for viewports in 1..=4 {
        let renderer = renderer(viewports);
        let commands = renderer.draw_frame(acquired(0), &vec![]).unwrap();
        assert_eq!(count(&commands, is_mvp_upload), viewports);
        assert_eq!(count(&commands, is_color_fill), expected_without_sky[viewports - 1]);
    }
}

#[test]
fn line_scale_is_one_up_to_640_by_480() {
    for (width, height) in [(640, 480), (320, 240), (1, 1), (0, 0), (639, 4800), (6400, 479)] {
        assert_eq!(
            line_scale(Resolution { width, height }),
            LineScale { numerator: 1, denominator: 1 }
        );
    }
}

#[test]
fn line_scale_is_the_lesser_of_width_and_height() {
    assert_eq!(
        line_scale(Resolution { width: 1280, height: 960 }),
        LineScale { numerator: 1280, denominator: 640 }
    );
    assert_eq!(
        line_scale(Resolution { width: 1920, height: 1080 }),
        LineScale { numerator: 1080, denominator: 480 }
    );
    assert_eq!(
        line_scale(Resolution { width: 1280, height: 1440 }),
        LineScale { numerator: 1280, denominator: 640 }
    );
    assert_eq!(
        line_scale(Resolution { width: u32::MAX, height: u32::MAX }),
        LineScale { numerator: u32::MAX, denominator: 640 }
    );
}

#[test]
fn line_scale_agrees_with_the_formula_in_floats() {
    for (width, height) in [(640u32, 480u32), (800, 600), (1920, 1080), (1024, 768), (3840, 1600), (100, 2000)] {
        let scale = line_scale(Resolution { width, height });
        let expected = (width as f32 / 640.0).min(height as f32 / 480.0).max(1.0);
        assert_eq!(scale.numerator as f32 / scale.denominator as f32, expected);
    }
}

#[test]
fn bars_grow_with_the_surface() {
    let renderer = renderer_of(2, 1920, 1080);
    let commands = renderer.draw_frame(acquired(0), &vec![]).unwrap();
    assert_eq!(
        commands[commands.len() - 2],
        FrameCommand::DrawBar {
            bar: SplitScreenBar {
                vertical: false,
                second_half_only: false,
                scale: LineScale { numerator: 1080, denominator: 480 },
            }
        }
    );
}

#[test]
fn rebuild_swapchain_takes_the_new_size() {
    let mut renderer = renderer(2);
    let before = renderer.get_backend().swapchain();
    let parameters = RendererParameters {
        resolution: Resolution { width: 1280, height: 960 },
        number_of_viewports: 4,
        vsync: false,
        anisotropic_filtering: Some(16.0f32.to_bits()),
    };
    assert_eq!(renderer.rebuild_swapchain(&parameters), Ok(()));
    assert_eq!(renderer.current_resolution(), Resolution { width: 1280, height: 960 });
    let after = renderer.get_backend().swapchain();
    assert_eq!(after.image_extent, Resolution { width: 1280, height: 960 });
    assert_eq!(after.present_mode, before.present_mode);
    assert_eq!(after.min_image_count, before.min_image_count);
    assert_eq!(after.image_format, before.image_format);
    assert_eq!(after.composite_alpha, before.composite_alpha);
    assert_eq!(after.image_usage, before.image_usage);
    assert_eq!(renderer.viewport_count(), 2);
    assert_eq!(renderer.anisotropic_filtering(), None);
    let commands = renderer.draw_frame(acquired(0), &vec![]).unwrap();
    assert_eq!(
        commands[commands.len() - 2],
        FrameCommand::DrawBar {
            bar: SplitScreenBar {
                vertical: false,
                second_half_only: false,
                scale: LineScale { numerator: 1280, denominator: 640 },
            }
        }
    );
}

fn unit_bar(vertical: bool, second_half_only: bool) -> SplitScreenBar {
    SplitScreenBar { vertical, second_half_only, scale: LineScale { numerator: 1, denominator: 1 } }
}

#[test]
fn bar_across_is_two_pixels_thick_about_the_middle() {
    // in halves of a pixel: from 239 to 241 of 480 rows, over all 640 columns
    assert_eq!(
        unit_bar(false, false).rectangle(Resolution { width: 640, height: 480 }),
        BarRectangle { left: 0, top: 478, width: 1280, height: 4, denominator: 2 }
    );
}

#[test]
fn bar_down_covers_the_lower_half_or_all() {
    let resolution = Resolution { width: 640, height: 480 };
    assert_eq!(
        unit_bar(true, true).rectangle(resolution),
        BarRectangle { left: 638, top: 480, width: 4, height: 480, denominator: 2 }
    );
    assert_eq!(
        unit_bar(true, false).rectangle(resolution),
        BarRectangle { left: 638, top: 0, width: 4, height: 960, denominator: 2 }
    );
}

#[test]
fn bar_rectangle_agrees_with_the_formula_in_floats() {
    for (width, height) in [(640u32, 480u32), (800, 600), (1920, 1080), (3840, 1600), (320, 200)] {
        let resolution = Resolution { width, height };
        let scale = line_scale(resolution);
        let factor = (width as f32 / 640.0).min(height as f32 / 480.0).max(1.0);
        let line_thickness_horizontal = 2.0 / height as f32 * factor;
        let line_thickness_vertical = 2.0 / width as f32 * factor;

        let across = SplitScreenBar { vertical: false, second_half_only: false, scale }
            .rectangle(resolution);
        let relative = |value: i128, side: u32| {
            (value as f64 / across.denominator as f64 / side as f64) as f32
        };
        let close = |left: f32, right: f32| (left - right).abs() < 1e-6;
        assert!(close(relative(across.left, width), 0.0));
        assert!(close(relative(across.top, height), 0.5 - line_thickness_horizontal / 2.0));
        assert!(close(relative(across.width, width), 1.0));
        assert!(close(relative(across.height, height), line_thickness_horizontal));

        let down = SplitScreenBar { vertical: true, second_half_only: true, scale }
            .rectangle(resolution);
        assert!(close(relative(down.left, width), 0.5 - line_thickness_vertical / 2.0));
        assert!(close(relative(down.top, height), 0.5));
        assert!(close(relative(down.width, width), line_thickness_vertical));
        assert!(close(relative(down.height, height), 0.5));
    }
}

#[test]
fn bar_rectangle_of_the_largest_surface_does_not_overflow() {
    let bar = SplitScreenBar {
        vertical: true,
        second_half_only: false,
        scale: LineScale { numerator: u32::MAX, denominator: u32::MAX },
    };
    let side = u32::MAX as i128;
    assert_eq!(
        bar.rectangle(Resolution { width: u32::MAX, height: u32::MAX }),
        BarRectangle {
            left: side * side - 2 * side,
            top: 0,
            width: 4 * side,
            height: 2 * side * side,
            denominator: 2 * side,
        }
    );
}
