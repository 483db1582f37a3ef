//! The records that the registry keeps of the assets it was given.

use vstd::prelude::*;
use crate::renderer::parameters::bitmap::{
    AddBitmapBitmapParameter,
    AddBitmapParameter,
    AddBitmapSequenceParameter,
    BitmapType,
};
use crate::renderer::parameters::bsp::{
    AddBSPParameter,
    AddBSPParameterCluster,
    AddBSPParameterLightmapMaterial,
    AddBSPParameterLightmapSet,
};
use crate::renderer::parameters::geometry::AddGeometryParameter;
use crate::renderer::parameters::shader::{
    AddShaderData,
    AddShaderParameter,
    ShaderType,
    DEFAULT_BITMAP,
};
use crate::renderer::parameters::sky::AddSkyParameter;
use crate::types::FloatBits;
use crate::vertex::{LightmapVertex, ModelTriangle, ModelVertex};

verus! {

/// A loaded bitmap group.
#[derive(Clone, Debug, PartialEq, Eq)]
pub struct Bitmap {
    pub bitmaps: Vec<AddBitmapBitmapParameter>,
    pub sequences: Vec<AddBitmapSequenceParameter>,
}

impl Bitmap {
    /// The record that is kept of `parameters`.
    pub open spec fn from_parameters(parameters: AddBitmapParameter) -> Bitmap {
        Bitmap { bitmaps: parameters.bitmaps, sequences: parameters.sequences }
    }

    /// Makes the record that is kept of `parameters`.
    pub fn load_from_parameters(parameters: AddBitmapParameter) -> (bitmap: Bitmap)
        ensures
            bitmap == Bitmap::from_parameters(parameters),
    {
        Bitmap { bitmaps: parameters.bitmaps, sequences: parameters.sequences }
    }

    /// The group has a sub-bitmap, the pixel data of each sub-bitmap has the
    /// length that its description calls for, and every sequence stays
    /// within the group.
    pub open spec fn valid(&self) -> bool {
        &&& self.bitmaps@.len() >= 1
        &&& forall|i: int| 0 <= i < self.bitmaps@.len() ==> (#[trigger] self.bitmaps@[i]).valid()
        &&& forall|i: int|
            0 <= i < self.sequences@.len() ==> (#[trigger] self.sequences@[i]).valid(
                self.bitmaps@.len(),
            )
    }

    /// Whether the first sub-bitmap can be sampled as a plain flat texture:
    /// it is two-dimensional and has a single layer.
    pub open spec fn spec_is_simple_texture(&self) -> bool {
        self.bitmaps@.len() >= 1 && self.bitmaps@[0].bitmap_type is Dim2D
    }

    /// Tests [`Bitmap::spec_is_simple_texture`].
    pub fn is_simple_texture(&self) -> (simple: bool)
        ensures
            simple == self.spec_is_simple_texture(),
    {
        if self.bitmaps.len() == 0 {
            false
        } else {
            match self.bitmaps[0].bitmap_type {
                BitmapType::Dim2D => true,
                _ => false,
            }
        }
    }
}

/// A loaded shader.
#[derive(Clone, Debug, PartialEq, Eq)]
pub struct Shader {
    pub shader_type: ShaderType,
    /// The path of the base diffuse bitmap.
    pub bitmap: String,
}

/// A shader as the contracts speak of it.
pub struct ShaderView {
    pub shader_type: ShaderType,
    /// The path of the base diffuse bitmap.
    pub bitmap: Seq<char>,
}

impl View for Shader {
    type V = ShaderView;

    open spec fn view(&self) -> ShaderView {
        ShaderView { shader_type: self.shader_type, bitmap: self.bitmap@ }
    }
}

impl ShaderView {
    /// What is kept of `parameters`: the kind, and the path of the base
    /// bitmap, which is the default bitmap where the parameters name none.
    pub open spec fn from_parameters(parameters: AddShaderParameter) -> ShaderView {
        ShaderView { shader_type: parameters.shader_type(), bitmap: parameters.base_bitmap() }
    }

    /// The base bitmap is one of `bitmaps`.
    pub open spec fn resolves(self, bitmaps: Map<Seq<char>, Bitmap>) -> bool {
        bitmaps.contains_key(self.bitmap)
    }
}

impl Shader {
    /// Makes the record that is kept of `parameters`.
    pub fn load_from_parameters(parameters: AddShaderParameter) -> (shader: Shader)
        ensures
            shader@ == ShaderView::from_parameters(parameters),
    {
        match parameters.data {
            AddShaderData::BasicShader(basic) => Shader {
                shader_type: basic.shader_type,
                bitmap: match basic.bitmap {
                    Some(bitmap) => bitmap,
                    None => DEFAULT_BITMAP.to_owned(),
                },
            },
        }
    }
}

/// A draw unit: vertices, the triangles over them, and the shader to apply.
#[derive(Clone, Debug, PartialEq, Eq)]
pub struct Geometry {
    pub vertices: Vec<ModelVertex>,
    /// Lightmap coordinates, one for each vertex, where the geometry is lit by a lightmap.
    pub lightmap_vertices: Option<Vec<LightmapVertex>>,
    pub indices: Vec<ModelTriangle>,
    /// The sub-bitmap of the lightmap bitmap that lights the geometry.
    pub lightmap_index: Option<usize>,
    /// The path of the shader.
    pub shader: String,
}

impl Geometry {
    /// The record that is kept of a geometry that was added by itself.
    pub open spec fn from_parameters(parameters: AddGeometryParameter) -> Geometry {
        Geometry {
            vertices: parameters.vertices,
            lightmap_vertices: parameters.lightmap_vertices,
            indices: parameters.indices,
            lightmap_index: parameters.lightmap_index,
            shader: parameters.shader,
        }
    }

    /// Makes the record that is kept of a geometry that was added by itself.
    pub fn load_from_parameters(parameters: AddGeometryParameter) -> (geometry: Geometry)
        ensures
            geometry == Geometry::from_parameters(parameters),
    {
        Geometry {
            vertices: parameters.vertices,
            lightmap_vertices: parameters.lightmap_vertices,
            indices: parameters.indices,
            lightmap_index: parameters.lightmap_index,
            shader: parameters.shader,
        }
    }

    /// The geometry that a material of a lightmap set becomes.
    pub open spec fn from_material(
        material: AddBSPParameterLightmapMaterial,
        lightmap_index: Option<usize>,
    ) -> Geometry {
        Geometry {
            vertices: material.shader_vertices,
            lightmap_vertices: material.lightmap_vertices,
            indices: material.indices,
            lightmap_index,
            shader: material.shader,
        }
    }

    /// Makes the geometry that a material of a lightmap set becomes.
    pub fn load_from_material(
        material: AddBSPParameterLightmapMaterial,
        lightmap_index: Option<usize>,
    ) -> (geometry: Geometry)
        ensures
            geometry == Geometry::from_material(material, lightmap_index),
    {
        Geometry {
            vertices: material.shader_vertices,
            lightmap_vertices: material.lightmap_vertices,
            indices: material.indices,
            lightmap_index,
            shader: material.shader,
        }
    }

    /// Where there are lightmap coordinates, there is one for each vertex.
    pub open spec fn lightmap_parity(&self) -> bool {
        self.lightmap_vertices matches Some(lightmap_vertices) ==> lightmap_vertices@.len()
            == self.vertices@.len()
    }

    /// Every corner of every triangle names a vertex of the geometry.
    pub open spec fn indices_within(&self) -> bool {
        forall|i: int|
            0 <= i < self.indices@.len() ==> (#[trigger] self.indices@[i]).within(
                self.vertices@.len(),
            )
    }

    /// The shader is one of `shaders`.
    pub open spec fn resolves(&self, shaders: Map<Seq<char>, ShaderView>) -> bool {
        shaders.contains_key(self.shader@)
    }
}

/// A loaded sky.
#[derive(Clone, Debug, PartialEq, Eq)]
pub struct Sky {
    pub outdoor_fog_color: [FloatBits; 3],
    pub indoor_fog_color: [FloatBits; 3],
    pub fog_density: FloatBits,
    /// The path of a bitmap that the sky uses, if any.
    pub bitmap: Option<String>,
    /// The path of the geometry of the sky's model, if any.
    pub model: Option<String>,
}

impl Sky {
    /// The record that is kept of `parameters`.
    pub open spec fn from_parameters(parameters: AddSkyParameter) -> Sky {
        Sky {
            outdoor_fog_color: parameters.outdoor_fog_color,
            indoor_fog_color: parameters.indoor_fog_color,
            fog_density: parameters.fog_density,
            bitmap: parameters.bitmap,
            model: parameters.model,
        }
    }

    /// Makes the record that is kept of `parameters`.
    pub fn load_from_parameters(parameters: AddSkyParameter) -> (sky: Sky)
        ensures
            sky == Sky::from_parameters(parameters),
    {
        Sky {
            outdoor_fog_color: parameters.outdoor_fog_color,
            indoor_fog_color: parameters.indoor_fog_color,
            fog_density: parameters.fog_density,
            bitmap: parameters.bitmap,
            model: parameters.model,
        }
    }

    /// The bitmap and the model, where the sky names them, are among
    /// `bitmaps` and `geometries`.
    pub open spec fn resolves(
        &self,
        bitmaps: Map<Seq<char>, Bitmap>,
        geometries: Map<Seq<char>, Geometry>,
    ) -> bool {
        &&& self.bitmap matches Some(path) ==> bitmaps.contains_key(path@)
        &&& self.model matches Some(path) ==> geometries.contains_key(path@)
    }
}

/// One region of a BSP.
#[derive(Clone, Debug, PartialEq, Eq)]
pub struct BSPCluster {
    /// The path of the sky that is seen from the region, if any.
    pub sky: Option<String>,
}

/// A loaded BSP.
#[derive(Clone, Debug, PartialEq, Eq)]
pub struct BSP {
    /// The path of the bitmap that holds the lightmaps.
    pub lightmap_bitmap: Option<String>,
    /// The geometries in drawing order: set by set, and material by material within a set.
    pub geometries: Vec<Geometry>,
    pub clusters: Vec<BSPCluster>,
}

/// The geometries that the materials of one lightmap set become, in order.
pub open spec fn set_geometries(set: AddBSPParameterLightmapSet) -> Seq<Geometry> {
    Seq::new(
        set.materials@.len(),
        |j: int| Geometry::from_material(set.materials@[j], set.lightmap_index),
    )
}

/// The geometries that the materials of `sets` become: those of the first
/// set, then those of the second, and so on.
pub open spec fn sets_geometries(sets: Seq<AddBSPParameterLightmapSet>) -> Seq<Geometry>
    decreases sets.len(),
{
    if sets.len() == 0 {
        Seq::empty()
    } else {
        sets_geometries(sets.drop_last()) + set_geometries(sets.last())
    }
}

/// Every geometry of `sets` comes from one material of one set: it holds
/// what the material holds, and the lightmap of its set.
pub proof fn lemma_sets_geometries_origin(sets: Seq<AddBSPParameterLightmapSet>, k: int) -> (origin:
    (int, int))
    requires
        0 <= k < sets_geometries(sets).len(),
    ensures
        0 <= origin.0 < sets.len(),
        0 <= origin.1 < sets[origin.0].materials@.len(),
        sets_geometries(sets)[k] == Geometry::from_material(
            sets[origin.0].materials@[origin.1],
            sets[origin.0].lightmap_index,
        ),
    decreases sets.len(),
{
    let before = sets_geometries(sets.drop_last());
    if k < before.len() {
        lemma_sets_geometries_origin(sets.drop_last(), k)
    } else {
        (sets.len() - 1, k - before.len())
    }
}

/// The regions as they are kept.
pub open spec fn clusters_of(clusters: Seq<AddBSPParameterCluster>) -> Seq<BSPCluster> {
    Seq::new(clusters.len(), |i: int| BSPCluster { sky: clusters[i].sky })
}

/// A BSP as the contracts speak of it.
pub struct BSPView {
    pub lightmap_bitmap: Option<Seq<char>>,
    pub geometries: Seq<Geometry>,
    pub clusters: Seq<BSPCluster>,
}

impl View for BSP {
    type V = BSPView;

    open spec fn view(&self) -> BSPView {
        BSPView {
            lightmap_bitmap: match self.lightmap_bitmap {
                Some(path) => Some(path@),
                None => None,
            },
            geometries: self.geometries@,
            clusters: self.clusters@,
        }
    }
}

impl BSP {
    /// Makes the record that is kept of `parameters`: each material of each
    /// lightmap set becomes one geometry, in the order in which they stand.
    pub fn load_from_parameters(parameters: AddBSPParameter) -> (bsp: BSP)
        ensures
            bsp@ == BSPView::from_parameters(parameters),
    {
        let AddBSPParameter { lightmap_bitmap, lightmap_sets, clusters } = parameters;
        let ghost all_sets = lightmap_sets@;
        let ghost all_clusters = clusters@;
        let mut geometries: Vec<Geometry> = Vec::new();
        for set in sets: lightmap_sets.into_iter()
            invariant
                sets.seq() == all_sets,
                geometries@ == sets_geometries(all_sets.take(sets.index() as int)),
        {
            let ghost before = geometries@;
            let ghost done = all_sets.take(sets.index() as int);
            let AddBSPParameterLightmapSet { lightmap_index, materials } = set;
            let ghost all_materials = materials@;
            for material in these: materials.into_iter()
                invariant
                    these.seq() == all_materials,
                    all_materials == set.materials@,
                    lightmap_index == set.lightmap_index,
                    geometries@ == before + set_geometries(set).take(these.index() as int),
            {
                geometries.push(Geometry::load_from_material(material, lightmap_index));
                assert(set_geometries(set).take(these.index() + 1) =~= set_geometries(set).take(
                    these.index() as int,
                ).push(Geometry::from_material(material, lightmap_index)));
            }
            assert(set_geometries(set).take(all_materials.len() as int) =~= set_geometries(set));
            assert(all_sets.take(sets.index() + 1).drop_last() =~= done);
            assert(all_sets.take(sets.index() + 1).last() == set);
        }
        assert(all_sets.take(all_sets.len() as int) =~= all_sets);
        let mut kept: Vec<BSPCluster> = Vec::new();
        for cluster in those: clusters.into_iter()
            invariant
                those.seq() == all_clusters,
                kept@ == clusters_of(all_clusters).take(those.index() as int),
        {
            kept.push(BSPCluster { sky: cluster.sky });
            assert(clusters_of(all_clusters).take(those.index() + 1) =~= clusters_of(
                all_clusters,
            ).take(those.index() as int).push(BSPCluster { sky: cluster.sky }));
        }
        assert(clusters_of(all_clusters).take(all_clusters.len() as int) =~= clusters_of(
            all_clusters,
        ));
        BSP { lightmap_bitmap, geometries, clusters: kept }
    }
}

impl BSPView {
    /// What is kept of `parameters`.
    pub open spec fn from_parameters(parameters: AddBSPParameter) -> BSPView {
        BSPView {
            lightmap_bitmap: match parameters.lightmap_bitmap {
                Some(path) => Some(path@),
                None => None,
            },
            geometries: sets_geometries(parameters.lightmap_sets@),
            clusters: clusters_of(parameters.clusters@),
        }
    }

    /// A BSP without geometry: what is drawn while no BSP is current.
    pub open spec fn empty() -> BSPView {
        BSPView { lightmap_bitmap: None, geometries: Seq::empty(), clusters: Seq::empty() }
    }

    /// The lightmap bitmap is one of `bitmaps`; the shader of every geometry
    /// is one of `shaders`; every geometry that names a lightmap names a
    /// sub-bitmap of the lightmap bitmap; lightmap coordinates come one for
    /// each vertex; and the sky of every region is one of `skies`.
    pub open spec fn valid(
        self,
        bitmaps: Map<Seq<char>, Bitmap>,
        shaders: Map<Seq<char>, ShaderView>,
        skies: Map<Seq<char>, Sky>,
    ) -> bool {
        &&& self.lightmap_bitmap matches Some(path) ==> bitmaps.contains_key(path)
        &&& forall|i: int|
            0 <= i < self.geometries.len() ==> {
                let geometry = #[trigger] self.geometries[i];
                &&& geometry.resolves(shaders)
                &&& geometry.lightmap_parity()
                &&& geometry.lightmap_index matches Some(index) ==> {
                    &&& self.lightmap_bitmap matches Some(path)
                    &&& index < bitmaps[path].bitmaps@.len()
                }
            }
        &&& forall|i: int|
            0 <= i < self.clusters.len() ==> ((#[trigger] self.clusters[i]).sky matches Some(
                path,
            ) ==> skies.contains_key(path@))
    }
}

/// The assets of a renderer by path, and the path of its current BSP.
pub struct Registry {
    pub bitmaps: Map<Seq<char>, Bitmap>,
    pub shaders: Map<Seq<char>, ShaderView>,
    pub geometries: Map<Seq<char>, Geometry>,
    pub skies: Map<Seq<char>, Sky>,
    pub bsps: Map<Seq<char>, BSPView>,
    pub current_bsp: Option<Seq<char>>,
}

impl Registry {
    /// The registry of a renderer that was just made.
    pub open spec fn empty() -> Registry {
        Registry {
            bitmaps: Map::empty(),
            shaders: Map::empty(),
            geometries: Map::empty(),
            skies: Map::empty(),
            bsps: Map::empty(),
            current_bsp: None,
        }
    }

    /// Whether an asset of any kind is kept under `path`.
    pub open spec fn contains_path(self, path: Seq<char>) -> bool {
        ||| self.bitmaps.contains_key(path)
        ||| self.shaders.contains_key(path)
        ||| self.geometries.contains_key(path)
        ||| self.skies.contains_key(path)
        ||| self.bsps.contains_key(path)
    }

    /// The pixel data of every sub-bitmap of every bitmap has the length
    /// that its description calls for.
    pub open spec fn bitmaps_valid(self) -> bool {
        forall|path: Seq<char>| #[trigger]
            self.bitmaps.contains_key(path) ==> self.bitmaps[path].valid()
    }

    /// Every path that a shader, a geometry, a sky or a BSP refers to names
    /// a loaded asset of the kind it refers to, and so does the current BSP.
    pub open spec fn closed_under_dependencies(self) -> bool {
        &&& forall|path: Seq<char>| #[trigger]
            self.shaders.contains_key(path) ==> self.shaders[path].resolves(self.bitmaps)
        &&& forall|path: Seq<char>| #[trigger]
            self.geometries.contains_key(path) ==> self.geometries[path].resolves(self.shaders)
        &&& forall|path: Seq<char>| #[trigger]
            self.skies.contains_key(path) ==> self.skies[path].resolves(
                self.bitmaps,
                self.geometries,
            )
        &&& forall|path: Seq<char>| #[trigger]
            self.bsps.contains_key(path) ==> self.bsps[path].valid(
                self.bitmaps,
                self.shaders,
                self.skies,
            )
        &&& self.current_bsp matches Some(path) ==> self.bsps.contains_key(path)
    }

    /// Every geometry, by itself or of a BSP, that has lightmap coordinates
    /// has one for each vertex; and the triangles of every geometry that was
    /// added by itself stay within its vertices.
    pub open spec fn geometries_consistent(self) -> bool {
        &&& forall|path: Seq<char>| #[trigger]
            self.geometries.contains_key(path) ==> self.geometries[path].lightmap_parity()
                && self.geometries[path].indices_within()
        &&& forall|path: Seq<char>, i: int|
            self.bsps.contains_key(path) && 0 <= i < self.bsps[path].geometries.len()
                ==> (#[trigger] self.bsps[path].geometries[i]).lightmap_parity()
    }

    /// All that holds of the assets of a renderer at any time.
    pub open spec fn valid(self) -> bool {
        &&& self.bitmaps_valid()
        &&& self.closed_under_dependencies()
        &&& self.geometries_consistent()
    }

    /// A valid bitmap under a path that holds no bitmap leaves a valid
    /// registry valid.
    pub proof fn lemma_add_bitmap(registry: Registry, path: Seq<char>, bitmap: Bitmap)
        requires
            registry.valid(),
            !registry.bitmaps.contains_key(path),
            bitmap.valid(),
        ensures
            (Registry { bitmaps: registry.bitmaps.insert(path, bitmap), ..registry }).valid(),
    {
        let after = Registry { bitmaps: registry.bitmaps.insert(path, bitmap), ..registry };
        assert forall|other: Seq<char>| #[trigger] after.bsps.contains_key(other) implies after.bsps[other].valid(
            after.bitmaps,
            after.shaders,
            after.skies,
        ) by {
            assert(registry.bsps.contains_key(other));
            assert(registry.bsps[other].valid(registry.bitmaps, registry.shaders, registry.skies));
        }
    }

    /// A shader whose base bitmap is loaded leaves a valid registry valid.
    pub proof fn lemma_add_shader(registry: Registry, path: Seq<char>, shader: ShaderView)
        requires
            registry.valid(),
            shader.resolves(registry.bitmaps),
        ensures
            (Registry { shaders: registry.shaders.insert(path, shader), ..registry }).valid(),
    {
        let after = Registry { shaders: registry.shaders.insert(path, shader), ..registry };
        assert forall|other: Seq<char>| #[trigger] after.bsps.contains_key(other) implies after.bsps[other].valid(
            after.bitmaps,
            after.shaders,
            after.skies,
        ) by {
            assert(registry.bsps.contains_key(other));
            assert(registry.bsps[other].valid(registry.bitmaps, registry.shaders, registry.skies));
        }
    }

    /// A consistent geometry whose shader is loaded leaves a valid registry valid.
    pub proof fn lemma_add_geometry(registry: Registry, path: Seq<char>, geometry: Geometry)
        requires
            registry.valid(),
            geometry.resolves(registry.shaders),
            geometry.lightmap_parity(),
            geometry.indices_within(),
        ensures
            (Registry { geometries: registry.geometries.insert(path, geometry), ..registry }).valid(),
    {
    }

    /// A sky whose bitmap and model are loaded leaves a valid registry valid.
    pub proof fn lemma_add_sky(registry: Registry, path: Seq<char>, sky: Sky)
        requires
            registry.valid(),
            sky.resolves(registry.bitmaps, registry.geometries),
        ensures
            (Registry { skies: registry.skies.insert(path, sky), ..registry }).valid(),
    {
        let after = Registry { skies: registry.skies.insert(path, sky), ..registry };
        assert forall|other: Seq<char>| #[trigger] after.bsps.contains_key(other) implies after.bsps[other].valid(
            after.bitmaps,
            after.shaders,
            after.skies,
        ) by {
            assert(registry.bsps.contains_key(other));
            assert(registry.bsps[other].valid(registry.bitmaps, registry.shaders, registry.skies));
        }
    }

    /// A valid BSP leaves a valid registry valid.
    pub proof fn lemma_add_bsp(registry: Registry, path: Seq<char>, bsp: AddBSPParameter)
        requires
            registry.valid(),
            bsp.valid(registry),
        ensures
            BSPView::from_parameters(bsp).valid(
                registry.bitmaps,
                registry.shaders,
                registry.skies,
            ),
            (Registry {
                bsps: registry.bsps.insert(path, BSPView::from_parameters(bsp)),
                ..registry
            }).valid(),
    {
        let view = BSPView::from_parameters(bsp);
        assert forall|k: int| 0 <= k < view.geometries.len() implies {
            let geometry = #[trigger] view.geometries[k];
            &&& geometry.resolves(registry.shaders)
            &&& geometry.lightmap_parity()
            &&& geometry.lightmap_index matches Some(index) ==> {
                &&& view.lightmap_bitmap matches Some(lightmaps)
                &&& index < registry.bitmaps[lightmaps].bitmaps@.len()
            }
        } by {
            let (i, j) = lemma_sets_geometries_origin(bsp.lightmap_sets@, k);
            assert(bsp.lightmap_sets@[i].valid(bsp.lightmap_count(registry), registry));
            assert(bsp.lightmap_sets@[i].materials@[j].valid(registry));
        }
        assert forall|c: int| 0 <= c < view.clusters.len() implies ((
        #[trigger] view.clusters[c]).sky matches Some(sky) ==> registry.skies.contains_key(
            sky@,
        )) by {
            assert(view.clusters[c].sky == bsp.clusters@[c].sky);
        }
    }

    /// The BSP that is drawn: the current one, or one without geometry.
    pub open spec fn drawn_bsp(self) -> BSPView {
        match self.current_bsp {
            Some(path) => if self.bsps.contains_key(path) {
                self.bsps[path]
            } else {
                BSPView::empty()
            },
            None => BSPView::empty(),
        }
    }
}

} // verus!
