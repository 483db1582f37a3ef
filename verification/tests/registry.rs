use magellanicus::error::Error;
use magellanicus::renderer::parameters::bitmap::{
    AddBitmapBitmapParameter, AddBitmapParameter, BitmapFormat, BitmapType,
};
use magellanicus::renderer::parameters::bsp::{
    AddBSPParameter, AddBSPParameterCluster, AddBSPParameterLightmapMaterial,
    AddBSPParameterLightmapSet,
};
use magellanicus::renderer::parameters::geometry::AddGeometryParameter;
use magellanicus::renderer::parameters::shader::{
    AddShaderBasicShaderData, AddShaderData, AddShaderParameter, ShaderType, DEFAULT_BITMAP,
};
use magellanicus::renderer::parameters::sky::AddSkyParameter;
use magellanicus::renderer::parameters::{RendererParameters, Resolution};
use magellanicus::renderer::player_viewport::Camera;
use magellanicus::renderer::vulkan::helper::{CompositeAlpha, SurfaceInfo};
use magellanicus::renderer::Renderer;
use magellanicus::vertex::{LightmapVertex, ModelTriangle, ModelVertex};

fn surface() -> SurfaceInfo {
    SurfaceInfo {
        formats: vec![50, 44],
        min_image_count: 2,
        supported_composite_alpha: vec![CompositeAlpha::Opaque],
    }
}

fn renderer(viewports: usize) -> Renderer {
    Renderer::new(
        RendererParameters {
            resolution: Resolution { width: 640, height: 480 },
            number_of_viewports: viewports,
            vsync: true,
            anisotropic_filtering: None,
        },
        &surface(),
    )
    .unwrap()
}

fn bitmap(count: usize) -> AddBitmapParameter {
    AddBitmapParameter {
        bitmaps: (0..count)
            .map(|_| AddBitmapBitmapParameter {
                format: BitmapFormat::A8,
                bitmap_type: BitmapType::Dim2D,
                resolution: Resolution { width: 2, height: 2 },
                mipmap_count: 1,
                data: vec![0x00, 0x55, 0xAA, 0xFF],
            })
            .collect(),
        sequences: vec![],
    }
}

fn shader(kind: ShaderType, bitmap: Option<&str>) -> AddShaderParameter {
    AddShaderParameter {
        data: AddShaderData::BasicShader(AddShaderBasicShaderData {
            bitmap: bitmap.map(|path| path.to_string()),
            shader_type: kind,
        }),
    }
}

fn vertex(x: f32, y: f32, z: f32) -> ModelVertex {
    ModelVertex {
        position: [x.to_bits(), y.to_bits(), z.to_bits()],
        normal: [0.0f32.to_bits(), 0.0f32.to_bits(), 1.0f32.to_bits()],
        binormal: [0.0f32.to_bits(), 1.0f32.to_bits(), 0.0f32.to_bits()],
        tangent: [1.0f32.to_bits(), 0.0f32.to_bits(), 0.0f32.to_bits()],
        texture_coords: [x.to_bits(), y.to_bits()],
    }
}

fn lightmap_vertices(count: usize) -> Vec<LightmapVertex> {
    vec![LightmapVertex { lightmap_texture_coords: [0.5f32.to_bits(), 0.5f32.to_bits()] }; count]
}

fn triangle_vertices() -> Vec<ModelVertex> {
    vec![vertex(0.0, 0.0, 0.0), vertex(1.0, 0.0, 0.0), vertex(0.0, 1.0, 0.0)]
}

fn material(shader: &str, lightmap: Option<usize>) -> AddBSPParameterLightmapMaterial {
    AddBSPParameterLightmapMaterial {
        shader_vertices: triangle_vertices(),
        lightmap_vertices: lightmap.map(lightmap_vertices),
        indices: vec![ModelTriangle { indices: [0, 1, 2] }],
        shader: shader.to_string(),
    }
}

fn geometry(shader: &str) -> AddGeometryParameter {
    AddGeometryParameter {
        vertices: triangle_vertices(),
        lightmap_vertices: None,
        indices: vec![ModelTriangle { indices: [0, 1, 2] }],
        lightmap_index: None,
        shader: shader.to_string(),
    }
}

fn sky(bitmap: Option<&str>, model: Option<&str>) -> AddSkyParameter {
    AddSkyParameter {
        outdoor_fog_color: [0.25f32.to_bits(), 0.5f32.to_bits(), 0.75f32.to_bits()],
        indoor_fog_color: [0.0f32.to_bits(), 0.0f32.to_bits(), 0.0f32.to_bits()],
        fog_density: 0.5f32.to_bits(),
        bitmap: bitmap.map(|path| path.to_string()),
        model: model.map(|path| path.to_string()),
    }
}

fn bsp(lightmap_bitmap: Option<&str>, sets: Vec<AddBSPParameterLightmapSet>) -> AddBSPParameter {
    AddBSPParameter {
        lightmap_bitmap: lightmap_bitmap.map(|path| path.to_string()),
        lightmap_sets: sets,
        clusters: vec![],
    }
}

/// A renderer with the bitmap "b" (one sub-bitmap) and the shader "s" on it.
fn loaded() -> Renderer {
    let mut renderer = renderer(1);
    renderer.add_bitmap("b", bitmap(1)).unwrap();
    renderer.add_shader("s", shader(ShaderType::Environment, Some("b"))).unwrap();
    renderer
}

fn is_empty(renderer: &Renderer) -> bool {
    ["b", "s", "g", "k", "m", DEFAULT_BITMAP].iter().all(|path| !renderer.has_path(path))
        && renderer.get_current_bsp().is_none()
}

#[test]
fn new_renderer_has_no_assets() {
    let renderer = renderer(1);
    assert!(is_empty(&renderer));
    assert_eq!(renderer.viewport_count(), 1);
    assert_eq!(renderer.current_resolution(), Resolution { width: 640, height: 480 });
}

#[test]
fn new_renderer_takes_one_to_four_viewports() {
    for count in 1..=4 {
        assert_eq!(renderer(count).viewport_count(), count);
    }
    for count in [0usize, 5, 100] {
        let result = Renderer::new(
            RendererParameters {
                resolution: Resolution { width: 640, height: 480 },
                number_of_viewports: count,
                vsync: true,
                anisotropic_filtering: None,
            },
            &surface(),
        );
        assert_eq!(result.err(), Some(Error::InvalidData));
    }
}

#[test]
fn new_renderer_fails_on_a_surface_without_formats() {
    let result = Renderer::new(
        RendererParameters {
            resolution: Resolution { width: 640, height: 480 },
            number_of_viewports: 1,
            vsync: true,
            anisotropic_filtering: None,
        },
        &SurfaceInfo { formats: vec![], ..surface() },
    );
    assert!(matches!(result, Err(Error::GraphicsAPIError { backend: "Vulkan", .. })));
}

#[test]
fn add_bitmap_then_again_already_exists() {
    let mut renderer = renderer(1);
    assert_eq!(renderer.add_bitmap("b", bitmap(1)), Ok(()));
    assert!(renderer.has_bitmap("b"));
    assert_eq!(renderer.get_bitmap("b").unwrap().bitmaps[0].data, vec![0x00, 0x55, 0xAA, 0xFF]);
    assert_eq!(renderer.add_bitmap("b", bitmap(1)), Err(Error::AlreadyExists));
}

#[test]
fn already_exists_comes_before_invalid_data() {
    let mut renderer = renderer(1);
    renderer.add_bitmap("b", bitmap(1)).unwrap();
    assert_eq!(renderer.add_bitmap("b", bitmap(0)), Err(Error::AlreadyExists));
    assert_eq!(renderer.add_bitmap("c", bitmap(0)), Err(Error::InvalidData));
}

#[test]
fn paths_are_shared_by_all_kinds_of_asset() {
    let mut renderer = loaded();
    renderer.add_geometry("g", geometry("s")).unwrap();
    renderer.add_sky("k", sky(None, None)).unwrap();
    renderer.add_bsp("m", bsp(None, vec![])).unwrap();
    for path in ["b", "s", "g", "k", "m"] {
        assert_eq!(renderer.add_bitmap(path, bitmap(1)), Err(Error::AlreadyExists));
        assert_eq!(
            renderer.add_shader(path, shader(ShaderType::Model, Some("b"))),
            Err(Error::AlreadyExists)
        );
        assert_eq!(renderer.add_geometry(path, geometry("s")), Err(Error::AlreadyExists));
        assert_eq!(renderer.add_sky(path, sky(None, None)), Err(Error::AlreadyExists));
        assert_eq!(renderer.add_bsp(path, bsp(None, vec![])), Err(Error::AlreadyExists));
    }
}

#[test]
fn add_invalid_bitmap_changes_nothing() {
    let mut renderer = renderer(1);
    let mut bad = bitmap(1);
    bad.bitmaps[0].data.pop();
    assert_eq!(renderer.add_bitmap("b", bad), Err(Error::InvalidData));
    assert!(is_empty(&renderer));
    assert_eq!(renderer.add_bitmap("b", bitmap(1)), Ok(()));
}

#[test]
fn add_shader_with_missing_bitmap_is_invalid_and_changes_nothing() {
    let mut renderer = renderer(1);
    assert_eq!(
        renderer.add_shader("s", shader(ShaderType::Environment, Some("missing"))),
        Err(Error::InvalidData)
    );
    assert!(is_empty(&renderer));
    assert!(!renderer.has_shader("s"));
    assert!(renderer.get_shader("s").is_none());
}

#[test]
fn add_shader_keeps_kind_and_bitmap() {
    let renderer = loaded();
    let shader = renderer.get_shader("s").unwrap();
    assert_eq!(shader.shader_type, ShaderType::Environment);
    assert_eq!(shader.bitmap, "b");
}

#[test]
fn shader_without_bitmap_takes_the_default_bitmap() {
    let mut renderer = renderer(1);
    assert_eq!(DEFAULT_BITMAP, "ui/shell/bitmaps/white");
    assert_eq!(
        renderer.add_shader("s", shader(ShaderType::TransparentGlass, None)),
        Err(Error::InvalidData)
    );
    renderer.add_bitmap(DEFAULT_BITMAP, bitmap(1)).unwrap();
    assert_eq!(renderer.add_shader("s", shader(ShaderType::TransparentGlass, None)), Ok(()));
    assert_eq!(renderer.get_shader("s").unwrap().bitmap, DEFAULT_BITMAP);
}

#[test]
fn add_geometry_needs_its_shader() {
    let mut renderer = loaded();
    assert_eq!(renderer.add_geometry("g", geometry("missing")), Err(Error::InvalidData));
    assert!(!renderer.has_geometry("g"));
    assert_eq!(renderer.add_geometry("g", geometry("s")), Ok(()));
    assert_eq!(renderer.get_geometry("g").unwrap().vertices.len(), 3);
}

#[test]
fn add_geometry_needs_lightmap_parity() {
    let mut renderer = loaded();
    let mut short = geometry("s");
    short.lightmap_vertices = Some(lightmap_vertices(2));
    assert_eq!(renderer.add_geometry("g", short), Err(Error::InvalidData));
    assert!(!renderer.has_path("g"));
    let mut equal = geometry("s");
    equal.lightmap_vertices = Some(lightmap_vertices(3));
    assert_eq!(renderer.add_geometry("g", equal), Ok(()));
    let kept = renderer.get_geometry("g").unwrap();
    assert_eq!(kept.lightmap_vertices.as_ref().unwrap().len(), kept.vertices.len());
}

#[test]
fn add_geometry_needs_indices_within_its_vertices() {
    let mut renderer = loaded();
    let mut outside = geometry("s");
    outside.indices.push(ModelTriangle { indices: [0, 1, 3] });
    assert_eq!(renderer.add_geometry("g", outside), Err(Error::InvalidData));
    assert!(!renderer.has_path("g"));
}

#[test]
fn add_sky_needs_what_it_names() {
    let mut renderer = loaded();
    assert_eq!(renderer.add_sky("k", sky(Some("missing"), None)), Err(Error::InvalidData));
    assert_eq!(renderer.add_sky("k", sky(None, Some("missing"))), Err(Error::InvalidData));
    assert_eq!(renderer.add_sky("k", sky(Some("b"), Some("b"))), Err(Error::InvalidData));
    assert!(!renderer.has_sky("k"));
    renderer.add_geometry("g", geometry("s")).unwrap();
    assert_eq!(renderer.add_sky("k", sky(Some("b"), Some("g"))), Ok(()));
    assert_eq!(
        renderer.get_sky("k").unwrap().outdoor_fog_color.map(f32::from_bits),
        [0.25, 0.5, 0.75]
    );
}

#[test]
fn add_bsp_with_lightmap_index_out_of_range_is_invalid() {
    let mut renderer = loaded();
    let parameter = bsp(
        Some("b"),
        vec![AddBSPParameterLightmapSet {
            lightmap_index: Some(5),
            materials: vec![material("s", Some(3))],
        }],
    );
    assert_eq!(renderer.add_bsp("m", parameter), Err(Error::InvalidData));
    assert!(!renderer.has_bsp("m"));
    assert!(!renderer.has_path("m"));
}

#[test]
fn add_bsp_with_lightmap_index_in_range_is_kept() {
    let mut renderer = loaded();
    let parameter = bsp(
        Some("b"),
        vec![AddBSPParameterLightmapSet {
            lightmap_index: Some(0),
            materials: vec![material("s", Some(3))],
        }],
    );
    assert_eq!(renderer.add_bsp("m", parameter), Ok(()));
    assert_eq!(renderer.get_bsp("m").unwrap().geometries[0].lightmap_index, Some(0));
}

#[test]
fn add_bsp_with_lightmap_index_but_no_lightmap_bitmap_is_invalid() {
    let mut renderer = loaded();
    let parameter = bsp(
        None,
        vec![AddBSPParameterLightmapSet { lightmap_index: Some(0), materials: vec![] }],
    );
    assert_eq!(renderer.add_bsp("m", parameter), Err(Error::InvalidData));
}

#[test]
fn add_bsp_needs_its_lightmap_bitmap() {
    let mut renderer = loaded();
    assert_eq!(renderer.add_bsp("m", bsp(Some("missing"), vec![])), Err(Error::InvalidData));
    assert_eq!(renderer.add_bsp("m", bsp(Some("s"), vec![])), Err(Error::InvalidData));
    assert_eq!(renderer.add_bsp("m", bsp(Some("b"), vec![])), Ok(()));
}

#[test]
fn add_bsp_needs_the_shader_of_every_material() {
    let mut renderer = loaded();
    let parameter = bsp(
        None,
        vec![
            AddBSPParameterLightmapSet { lightmap_index: None, materials: vec![material("s", None)] },
            AddBSPParameterLightmapSet {
                lightmap_index: None,
                materials: vec![material("s", None), material("missing", None)],
            },
        ],
    );
    assert_eq!(renderer.add_bsp("m", parameter), Err(Error::InvalidData));
    assert!(!renderer.has_path("m"));
}

#[test]
fn add_bsp_needs_lightmap_parity_in_every_material() {
    let mut renderer = loaded();
    let parameter = bsp(
        Some("b"),
        vec![AddBSPParameterLightmapSet {
            lightmap_index: Some(0),
            materials: vec![material("s", Some(3)), material("s", Some(4))],
        }],
    );
    assert_eq!(renderer.add_bsp("m", parameter), Err(Error::InvalidData));
    assert!(!renderer.has_path("m"));
}

#[test]
fn add_bsp_needs_the_sky_of_every_cluster() {
    let mut renderer = loaded();
    let mut parameter = bsp(None, vec![]);
    parameter.clusters = vec![
        AddBSPParameterCluster { sky: None },
        AddBSPParameterCluster { sky: Some("k".to_string()) },
    ];
    assert_eq!(renderer.add_bsp("m", parameter.clone()), Err(Error::InvalidData));
    renderer.add_sky("k", sky(None, None)).unwrap();
    assert_eq!(renderer.add_bsp("m", parameter), Ok(()));
    let kept = renderer.get_bsp("m").unwrap();
    assert_eq!(kept.clusters.len(), 2);
    assert_eq!(kept.clusters[0].sky, None);
    assert_eq!(kept.clusters[1].sky, Some("k".to_string()));
}

#[test]
fn add_bsp_makes_one_geometry_of_each_material_in_order() {
    let mut renderer = loaded();
    renderer.add_shader("t", shader(ShaderType::TransparentWater, Some("b"))).unwrap();
    let parameter = bsp(
        Some("b"),
        vec![
            AddBSPParameterLightmapSet {
                lightmap_index: Some(0),
                materials: vec![material("s", Some(3)), material("t", None)],
            },
            AddBSPParameterLightmapSet { lightmap_index: None, materials: vec![] },
            AddBSPParameterLightmapSet { lightmap_index: None, materials: vec![material("t", None)] },
        ],
    );
    assert_eq!(renderer.add_bsp("m", parameter), Ok(()));
    let kept = renderer.get_bsp("m").unwrap();
    assert_eq!(kept.lightmap_bitmap, Some("b".to_string()));
    let summary: Vec<(&str, Option<usize>, bool)> = kept
        .geometries
        .iter()
        .map(|g| (g.shader.as_str(), g.lightmap_index, g.lightmap_vertices.is_some()))
        .collect();
    assert_eq!(summary, vec![("s", Some(0), true), ("t", Some(0), false), ("t", None, false)]);
    assert_eq!(kept.geometries[0].vertices, triangle_vertices());
    assert_eq!(kept.geometries[0].indices, vec![ModelTriangle { indices: [0, 1, 2] }]);
}

#[test]
fn set_current_bsp_needs_a_loaded_bsp() {
    let mut renderer = loaded();
    assert_eq!(renderer.set_current_bsp(Some("m")), Err(Error::NotFound));
    assert_eq!(renderer.set_current_bsp(Some("b")), Err(Error::NotFound));
    assert_eq!(renderer.get_current_bsp(), None);
    renderer.add_bsp("m", bsp(None, vec![])).unwrap();
    assert_eq!(renderer.set_current_bsp(Some("m")), Ok(()));
    assert_eq!(renderer.get_current_bsp(), Some(&"m".to_string()));
    assert_eq!(renderer.set_current_bsp(Some("missing")), Err(Error::NotFound));
    assert_eq!(renderer.get_current_bsp(), Some(&"m".to_string()));
    assert_eq!(renderer.set_current_bsp(None), Ok(()));
    assert_eq!(renderer.get_current_bsp(), None);
}

#[test]
fn reset_drops_everything_and_twice_is_the_same() {
    let mut renderer = loaded();
    renderer.add_geometry("g", geometry("s")).unwrap();
    renderer.add_sky("k", sky(None, None)).unwrap();
    renderer.add_bsp("m", bsp(None, vec![])).unwrap();
    renderer.set_current_bsp(Some("m")).unwrap();
    renderer.reset();
    assert!(is_empty(&renderer));
    assert_eq!(renderer.viewport_count(), 1);
    renderer.reset();
    assert!(is_empty(&renderer));
    let mut fresh = self::renderer(1);
    for r in [&mut renderer, &mut fresh] {
        assert_eq!(r.set_current_bsp(Some("m")), Err(Error::NotFound));
        assert_eq!(
            r.add_shader("s", shader(ShaderType::Environment, Some("b"))),
            Err(Error::InvalidData)
        );
        assert_eq!(r.add_bitmap("b", bitmap(1)), Ok(()));
    }
}

#[test]
fn every_reference_of_a_loaded_asset_resolves() {
    let mut renderer = loaded();
    renderer.add_geometry("g", geometry("s")).unwrap();
    renderer.add_sky("k", sky(Some("b"), Some("g"))).unwrap();
    let mut parameter = bsp(
        Some("b"),
        vec![AddBSPParameterLightmapSet {
            lightmap_index: Some(0),
            materials: vec![material("s", Some(3))],
        }],
    );
    parameter.clusters = vec![AddBSPParameterCluster { sky: Some("k".to_string()) }];
    renderer.add_bsp("m", parameter).unwrap();
    assert!(renderer.has_bitmap(&renderer.get_shader("s").unwrap().bitmap));
    assert!(renderer.has_shader(&renderer.get_geometry("g").unwrap().shader));
    let sky = renderer.get_sky("k").unwrap();
    assert!(renderer.has_bitmap(sky.bitmap.as_ref().unwrap()));
    assert!(renderer.has_geometry(sky.model.as_ref().unwrap()));
    let kept = renderer.get_bsp("m").unwrap();
    let lightmaps = renderer.get_bitmap(kept.lightmap_bitmap.as_ref().unwrap()).unwrap();
    for geometry in &kept.geometries {
        assert!(renderer.has_shader(&geometry.shader));
        assert!(geometry.lightmap_index.unwrap() < lightmaps.bitmaps.len());
    }
    for cluster in &kept.clusters {
        assert!(renderer.has_sky(cluster.sky.as_ref().unwrap()));
    }
}

#[test]
fn stored_pixel_data_has_the_length_of_its_levels() {
    let mut renderer = renderer(1);
    let parameter = AddBitmapParameter {
        bitmaps: vec![AddBitmapBitmapParameter {
            format: BitmapFormat::DXT1,
            bitmap_type: BitmapType::Dim2D,
            resolution: Resolution { width: 8, height: 8 },
            mipmap_count: 2,
            data: vec![7u8; (4 + 1) * 8],
        }],
        sequences: vec![],
    };
    renderer.add_bitmap("b", parameter).unwrap();
    let kept = &renderer.get_bitmap("b").unwrap().bitmaps[0];
    assert_eq!(kept.data.len(), (4 + 1) * kept.format.block_byte_size());
    assert_eq!(kept.validate(), Ok(()));
}

#[test]
fn set_camera_for_viewport_changes_that_camera_alone() {
    let mut renderer = renderer(2);
    let before = renderer.get_viewport(1).unwrap();
    let camera = Camera {
        fov: 1.0f32.to_bits(),
        position: [1.0f32.to_bits(), 2.0f32.to_bits(), 3.0f32.to_bits()],
        rotation: [1.0f32.to_bits(), 0.0f32.to_bits(), 0.0f32.to_bits()],
        fullbright: true,
    };
    assert_eq!(renderer.set_camera_for_viewport(0, camera), Ok(()));
    let changed = renderer.get_viewport(0).unwrap();
    assert_eq!(changed.camera, camera);
    assert_eq!(f32::from_bits(changed.rel_height), 0.5);
    assert_eq!(renderer.get_viewport(1), Some(before));
    assert_eq!(renderer.set_camera_for_viewport(2, camera), Err(Error::NotFound));
    assert_eq!(renderer.get_viewport(2), None);
}
