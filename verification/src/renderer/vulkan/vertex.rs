//! The records that the GPU reads, and the buffers of a geometry.

use vstd::prelude::*;
use crate::types::{FloatBits, FLOAT_ONE, FLOAT_ZERO};
use crate::vertex::{LightmapVertex, ModelTriangle, ModelVertex};

verus! {

/// One record of the vertex buffer of a geometry.
#[derive(Copy, Clone, Debug, PartialEq, Eq)]
pub struct VulkanModelVertex {
    pub position: [FloatBits; 3],
    pub normal: [FloatBits; 3],
    pub binormal: [FloatBits; 3],
    pub tangent: [FloatBits; 3],
}

/// One record of the buffer of texture coordinates of a geometry.
#[derive(Copy, Clone, Debug, PartialEq, Eq)]
pub struct VulkanModelVertexTextureCoords {
    pub texture_coords: [FloatBits; 2],
}

/// One record of the buffer of lightmap texture coordinates of a geometry.
#[derive(Copy, Clone, Debug, PartialEq, Eq)]
pub struct VulkanModelVertexLightmapTextureCoords {
    pub lightmap_texture_coords: [FloatBits; 2],
}

/// The matrices that a viewport is drawn with. Each matrix holds its
/// columns one after the other.
#[derive(Copy, Clone, Debug, PartialEq, Eq)]
pub struct VulkanModelData {
    pub world: [[FloatBits; 4]; 4],
    pub view: [[FloatBits; 4]; 4],
    pub proj: [[FloatBits; 4]; 4],
    pub offset: [FloatBits; 3],
    pub rotation: [[FloatBits; 3]; 3],
}

/// The bit patterns of the matrix that changes nothing, of four rows and columns.
pub open spec fn spec_identity_4() -> [[FloatBits; 4]; 4] {
    [
        [FLOAT_ONE, FLOAT_ZERO, FLOAT_ZERO, FLOAT_ZERO],
        [FLOAT_ZERO, FLOAT_ONE, FLOAT_ZERO, FLOAT_ZERO],
        [FLOAT_ZERO, FLOAT_ZERO, FLOAT_ONE, FLOAT_ZERO],
        [FLOAT_ZERO, FLOAT_ZERO, FLOAT_ZERO, FLOAT_ONE],
    ]
}

/// The bit patterns of the matrix that changes nothing, of three rows and columns.
pub open spec fn spec_identity_3() -> [[FloatBits; 3]; 3] {
    [
        [FLOAT_ONE, FLOAT_ZERO, FLOAT_ZERO],
        [FLOAT_ZERO, FLOAT_ONE, FLOAT_ZERO],
        [FLOAT_ZERO, FLOAT_ZERO, FLOAT_ONE],
    ]
}

impl VulkanModelData {
    /// The matrices for the geometry of a BSP: the geometry stands where it
    /// is, neither moved nor turned, and is seen through `view` and `proj`.
    pub open spec fn spec_for_bsp(
        view: [[FloatBits; 4]; 4],
        proj: [[FloatBits; 4]; 4],
    ) -> VulkanModelData {
        VulkanModelData {
            world: spec_identity_4(),
            view,
            proj,
            offset: [FLOAT_ZERO, FLOAT_ZERO, FLOAT_ZERO],
            rotation: spec_identity_3(),
        }
    }

    /// Makes [`VulkanModelData::spec_for_bsp`].
    pub fn for_bsp(view: [[FloatBits; 4]; 4], proj: [[FloatBits; 4]; 4]) -> (data: VulkanModelData)
        ensures
            data == VulkanModelData::spec_for_bsp(view, proj),
    {
        VulkanModelData {
            world: [
                [FLOAT_ONE, FLOAT_ZERO, FLOAT_ZERO, FLOAT_ZERO],
                [FLOAT_ZERO, FLOAT_ONE, FLOAT_ZERO, FLOAT_ZERO],
                [FLOAT_ZERO, FLOAT_ZERO, FLOAT_ONE, FLOAT_ZERO],
                [FLOAT_ZERO, FLOAT_ZERO, FLOAT_ZERO, FLOAT_ONE],
            ],
            view,
            proj,
            offset: [FLOAT_ZERO, FLOAT_ZERO, FLOAT_ZERO],
            rotation: [
                [FLOAT_ONE, FLOAT_ZERO, FLOAT_ZERO],
                [FLOAT_ZERO, FLOAT_ONE, FLOAT_ZERO],
                [FLOAT_ZERO, FLOAT_ZERO, FLOAT_ONE],
            ],
        }
    }
}

impl VulkanModelVertex {
    /// The record of `vertex` in the vertex buffer: all of it but its texture coordinates.
    pub open spec fn spec_from_vertex(vertex: ModelVertex) -> VulkanModelVertex {
        VulkanModelVertex {
            position: vertex.position,
            normal: vertex.normal,
            binormal: vertex.binormal,
            tangent: vertex.tangent,
        }
    }

    /// Makes [`VulkanModelVertex::spec_from_vertex`].
    pub fn from_vertex(vertex: &ModelVertex) -> (record: VulkanModelVertex)
        ensures
            record == VulkanModelVertex::spec_from_vertex(*vertex),
    {
        VulkanModelVertex {
            position: vertex.position,
            normal: vertex.normal,
            binormal: vertex.binormal,
            tangent: vertex.tangent,
        }
    }
}

/// The vertex buffer of a geometry: one record for each vertex, in order.
pub open spec fn spec_vertex_buffer(vertices: Seq<ModelVertex>) -> Seq<VulkanModelVertex> {
    Seq::new(vertices.len(), |i: int| VulkanModelVertex::spec_from_vertex(vertices[i]))
}

/// The buffer of texture coordinates of a geometry: those of each vertex, in order.
pub open spec fn spec_texture_coords_buffer(vertices: Seq<ModelVertex>) -> Seq<
    VulkanModelVertexTextureCoords,
> {
    Seq::new(
        vertices.len(),
        |i: int| VulkanModelVertexTextureCoords { texture_coords: vertices[i].texture_coords },
    )
}

/// The buffer of lightmap texture coordinates of a geometry: those of each
/// lightmap vertex, in order.
pub open spec fn spec_lightmap_texture_coords_buffer(vertices: Seq<LightmapVertex>) -> Seq<
    VulkanModelVertexLightmapTextureCoords,
> {
    Seq::new(
        vertices.len(),
        |i: int|
            VulkanModelVertexLightmapTextureCoords {
                lightmap_texture_coords: vertices[i].lightmap_texture_coords,
            },
    )
}

/// The index buffer of a geometry: the three corners of each triangle, one
/// triangle after the other.
pub open spec fn spec_index_buffer(triangles: Seq<ModelTriangle>) -> Seq<u16> {
    Seq::new(3 * triangles.len(), |i: int| triangles[i / 3].indices[i % 3])
}

/// Makes the vertex buffer of a geometry.
pub fn vertex_buffer(vertices: &Vec<ModelVertex>) -> (buffer: Vec<VulkanModelVertex>)
    ensures
        buffer@ == spec_vertex_buffer(vertices@),
{
    let mut buffer: Vec<VulkanModelVertex> = Vec::new();
    let mut i: usize = 0;
    while i < vertices.len()
        invariant
            i <= vertices@.len(),
            buffer@ == spec_vertex_buffer(vertices@).take(i as int),
        decreases vertices@.len() - i,
    {
        buffer.push(VulkanModelVertex::from_vertex(&vertices[i]));
        assert(spec_vertex_buffer(vertices@).take(i + 1) =~= spec_vertex_buffer(vertices@).take(
            i as int,
        ).push(VulkanModelVertex::spec_from_vertex(vertices@[i as int])));
        i = i + 1;
    }
    assert(spec_vertex_buffer(vertices@).take(vertices@.len() as int) =~= spec_vertex_buffer(
        vertices@,
    ));
    buffer
}

/// Makes the buffer of texture coordinates of a geometry.
pub fn texture_coords_buffer(vertices: &Vec<ModelVertex>) -> (buffer: Vec<
    VulkanModelVertexTextureCoords,
>)
    ensures
        buffer@ == spec_texture_coords_buffer(vertices@),
{
    let mut buffer: Vec<VulkanModelVertexTextureCoords> = Vec::new();
    let mut i: usize = 0;
    while i < vertices.len()
        invariant
            i <= vertices@.len(),
            buffer@ == spec_texture_coords_buffer(vertices@).take(i as int),
        decreases vertices@.len() - i,
    {
        buffer.push(VulkanModelVertexTextureCoords { texture_coords: vertices[i].texture_coords });
        assert(spec_texture_coords_buffer(vertices@).take(i + 1) =~= spec_texture_coords_buffer(
            vertices@,
        ).take(i as int).push(
            VulkanModelVertexTextureCoords { texture_coords: vertices@[i as int].texture_coords },
        ));
        i = i + 1;
    }
    assert(spec_texture_coords_buffer(vertices@).take(vertices@.len() as int)
        =~= spec_texture_coords_buffer(vertices@));
    buffer
}

/// Makes the buffer of lightmap texture coordinates of a geometry.
pub fn lightmap_texture_coords_buffer(vertices: &Vec<LightmapVertex>) -> (buffer: Vec<
    VulkanModelVertexLightmapTextureCoords,
>)
    ensures
        buffer@ == spec_lightmap_texture_coords_buffer(vertices@),
{
    let mut buffer: Vec<VulkanModelVertexLightmapTextureCoords> = Vec::new();
    let mut i: usize = 0;
    while i < vertices.len()
        invariant
            i <= vertices@.len(),
            buffer@ == spec_lightmap_texture_coords_buffer(vertices@).take(i as int),
        decreases vertices@.len() - i,
    {
        buffer.push(
            VulkanModelVertexLightmapTextureCoords {
                lightmap_texture_coords: vertices[i].lightmap_texture_coords,
            },
        );
        assert(spec_lightmap_texture_coords_buffer(vertices@).take(i + 1)
            =~= spec_lightmap_texture_coords_buffer(vertices@).take(i as int).push(
            VulkanModelVertexLightmapTextureCoords {
                lightmap_texture_coords: vertices@[i as int].lightmap_texture_coords,
            },
        ));
        i = i + 1;
    }
    assert(spec_lightmap_texture_coords_buffer(vertices@).take(vertices@.len() as int)
        =~= spec_lightmap_texture_coords_buffer(vertices@));
    buffer
}

/// Makes the index buffer of a geometry.
pub fn index_buffer(triangles: &Vec<ModelTriangle>) -> (buffer: Vec<u16>)
    ensures
        buffer@ == spec_index_buffer(triangles@),
{
    let mut buffer: Vec<u16> = Vec::new();
    let mut i: usize = 0;
    while i < triangles.len()
        invariant
            i <= triangles@.len(),
            buffer@ == spec_index_buffer(triangles@).take(3 * i),
        decreases triangles@.len() - i,
    {
        let ghost before = buffer@;
        let triangle = &triangles[i];
        buffer.push(triangle.indices[0]);
        buffer.push(triangle.indices[1]);
        buffer.push(triangle.indices[2]);
        assert(buffer@ =~= spec_index_buffer(triangles@).take(3 * (i + 1))) by {
            assert(buffer@.len() == 3 * i + 3);
            assert forall|k: int| 0 <= k < 3 * i + 3 implies buffer@[k] == spec_index_buffer(
                triangles@,
            )[k] by {
                if k < 3 * i {
                    assert(buffer@[k] == before[k]);
                } else {
                    assert(k / 3 == i);
                }
            }
        }
        i = i + 1;
    }
    assert(spec_index_buffer(triangles@).take(3 * (triangles@.len() as int)) =~= spec_index_buffer(
        triangles@,
    ));
    buffer
}

} // verus!
