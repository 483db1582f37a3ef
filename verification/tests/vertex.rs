use magellanicus::renderer::vulkan::vertex::{
    index_buffer, lightmap_texture_coords_buffer, texture_coords_buffer, vertex_buffer,
    VulkanModelData, VulkanModelVertex, VulkanModelVertexLightmapTextureCoords,
    VulkanModelVertexTextureCoords,
};
use magellanicus::vertex::{LightmapVertex, ModelTriangle, ModelVertex};

fn bits3(x: f32, y: f32, z: f32) -> [u32; 3] {
    [x.to_bits(), y.to_bits(), z.to_bits()]
}

fn vertex(seed: f32) -> ModelVertex {
    ModelVertex {
        position: bits3(seed, seed + 1.0, seed + 2.0),
        normal: bits3(0.0, 0.0, 1.0),
        binormal: bits3(0.0, 1.0, seed),
        tangent: bits3(1.0, seed, 0.0),
        texture_coords: [(seed / 2.0).to_bits(), (seed / 4.0).to_bits()],
    }
}

#[test]
fn vertex_buffer_keeps_all_but_the_texture_coordinates() {
    let vertices = vec![vertex(1.0), vertex(2.0), vertex(3.0)];
    let buffer = vertex_buffer(&vertices);
    assert_eq!(buffer.len(), 3);
    for (record, vertex) in buffer.iter().zip(&vertices) {
        assert_eq!(
            *record,
            VulkanModelVertex {
                position: vertex.position,
                normal: vertex.normal,
                binormal: vertex.binormal,
                tangent: vertex.tangent,
            }
        );
        assert_eq!(*record, VulkanModelVertex::from_vertex(vertex));
    }
    assert_eq!(vertex_buffer(&vec![]), vec![]);
}

#[test]
fn texture_coords_buffer_is_parallel_to_the_vertices() {
    let vertices = vec![vertex(1.0), vertex(2.0)];
    assert_eq!(
        texture_coords_buffer(&vertices),
        vec![
            VulkanModelVertexTextureCoords { texture_coords: [0.5f32.to_bits(), 0.25f32.to_bits()] },
            VulkanModelVertexTextureCoords { texture_coords: [1.0f32.to_bits(), 0.5f32.to_bits()] },
        ]
    );
}

#[test]
fn lightmap_texture_coords_buffer_keeps_the_order() {
    let vertices = vec![
        LightmapVertex { lightmap_texture_coords: [1, 2] },
        LightmapVertex { lightmap_texture_coords: [3, 4] },
    ];
    assert_eq!(
        lightmap_texture_coords_buffer(&vertices),
        vec![
            VulkanModelVertexLightmapTextureCoords { lightmap_texture_coords: [1, 2] },
            VulkanModelVertexLightmapTextureCoords { lightmap_texture_coords: [3, 4] },
        ]
    );
}

#[test]
fn index_buffer_lists_the_corners_of_each_triangle() {
    let triangles = vec![
        ModelTriangle { indices: [0, 1, 2] },
        ModelTriangle { indices: [0, 2, 3] },
        ModelTriangle { indices: [7, 6, 5] },
    ];
    assert_eq!(index_buffer(&triangles), vec![0, 1, 2, 0, 2, 3, 7, 6, 5]);
    assert_eq!(index_buffer(&vec![]), Vec::<u16>::new());
}

#[test]
fn bsp_geometry_is_neither_moved_nor_turned() {
    let view = [[1u32; 4], [2; 4], [3; 4], [4; 4]];
    let proj = [[5u32; 4], [6; 4], [7; 4], [8; 4]];
    let data = VulkanModelData::for_bsp(view, proj);
    assert_eq!(data.view, view);
    assert_eq!(data.proj, proj);
    assert_eq!(
        data.world.map(|column| column.map(f32::from_bits)),
        [[1.0, 0.0, 0.0, 0.0], [0.0, 1.0, 0.0, 0.0], [0.0, 0.0, 1.0, 0.0], [0.0, 0.0, 0.0, 1.0]]
    );
    assert_eq!(data.offset.map(f32::from_bits), [0.0, 0.0, 0.0]);
    assert_eq!(
        data.rotation.map(|column| column.map(f32::from_bits)),
        [[1.0, 0.0, 0.0], [0.0, 1.0, 0.0], [0.0, 0.0, 1.0]]
    );
}
