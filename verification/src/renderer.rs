//! The renderer: its asset registry and the composition of its frames.

use vstd::prelude::*;
use crate::error::{Error, MResult};
use crate::renderer::asset_map::AssetMap;
use crate::renderer::data::{Bitmap, BSPView, Geometry, Registry, Shader, ShaderView, Sky, BSP};
use crate::renderer::parameters::bitmap::{total_block_count, AddBitmapParameter};
use crate::renderer::parameters::bsp::AddBSPParameter;
use crate::renderer::parameters::geometry::AddGeometryParameter;
use crate::renderer::parameters::shader::AddShaderParameter;
use crate::renderer::parameters::sky::AddSkyParameter;
use crate::renderer::parameters::{RendererParameters, Resolution};
use crate::renderer::player_viewport::{Camera, PlayerViewport};
use crate::renderer::vulkan::helper::{swapchain_settings, SurfaceInfo, SwapchainCreateInfo};
use crate::renderer::vulkan::frame::{frame_commands, AcquireOutcome, FrameCommand};
use crate::renderer::vulkan::VulkanRenderer;
use crate::types::FloatBits;

pub mod asset_map;
pub mod data;
pub mod parameters;
pub mod player_viewport;
pub mod vulkan;

verus! {

/// A renderer: the assets it was given, the BSP it draws, and the viewports
/// it draws into.
pub struct Renderer {
    renderer: VulkanRenderer,
    player_viewports: Vec<PlayerViewport>,
    bitmaps: AssetMap<Bitmap>,
    shaders: AssetMap<Shader>,
    geometries: AssetMap<Geometry>,
    skies: AssetMap<Sky>,
    bsps: AssetMap<BSP>,
    current_bsp: Option<String>,
}

impl Renderer {
    /// The assets by path, and the current BSP.
    pub closed spec fn registry(&self) -> Registry {
        Registry {
            bitmaps: self.bitmaps@,
            shaders: self.shaders@.map_values(|shader: Shader| shader@),
            geometries: self.geometries@,
            skies: self.skies@,
            bsps: self.bsps@.map_values(|bsp: BSP| bsp@),
            current_bsp: match self.current_bsp {
                Some(path) => Some(path@),
                None => None,
            },
        }
    }

    /// What the backend holds of the surface.
    pub closed spec fn backend(&self) -> VulkanRenderer {
        self.renderer
    }

    /// Whether the viewports and the backend of `self` are those of `other`.
    pub open spec fn same_setup(&self, other: &Renderer) -> bool {
        self.viewports() == other.viewports() && self.backend() == other.backend()
    }

    /// The viewports, in the order in which they are drawn.
    pub closed spec fn viewports(&self) -> Seq<PlayerViewport> {
        self.player_viewports@
    }

    /// What holds of a renderer at any time: its registry is valid, and it
    /// has one to four viewports.
    pub closed spec fn wf(&self) -> bool {
        &&& self.bitmaps.wf()
        &&& self.shaders.wf()
        &&& self.geometries.wf()
        &&& self.skies.wf()
        &&& self.bsps.wf()
        &&& 1 <= self.player_viewports@.len() <= 4
        &&& self.registry().valid()
    }

    /// Whether `self` is what [`Renderer::reset`] leaves of `before`: no
    /// asset, no current BSP, and the viewports and backend of `before`.
    pub open spec fn is_reset_of(&self, before: &Renderer) -> bool {
        &&& self.wf()
        &&& self.registry() == Registry::empty()
        &&& self.same_setup(before)
    }

    /// Whether `self` is what [`Renderer::new`] makes of `parameters` for `surface`.
    pub open spec fn is_new(&self, parameters: RendererParameters, surface: &SurfaceInfo) -> bool {
        &&& 1 <= parameters.number_of_viewports <= 4
        &&& surface.formats@.len() > 0
        &&& surface.supported_composite_alpha@.len() > 0
        &&& self.wf()
        &&& self.registry() == Registry::empty()
        &&& self.viewports() == Renderer::initial_viewports(parameters.number_of_viewports as nat)
        &&& self.backend().spec_current_resolution() == parameters.resolution
        &&& self.backend().spec_output_format() == surface.formats@[0]
        &&& self.backend().spec_swapchain() == swapchain_settings(
            surface.formats@[0],
            parameters,
            surface.min_image_count,
            surface.supported_composite_alpha@[0],
        )
        &&& self.backend().spec_anisotropic_filtering() == parameters.anisotropic_filtering
    }

    /// Resetting a renderer that was reset changes nothing, and the
    /// registry that either leaves is that of a renderer that was just made.
    pub proof fn lemma_reset_idempotent(
        before: Renderer,
        once: Renderer,
        twice: Renderer,
        fresh: Renderer,
        parameters: RendererParameters,
        surface: SurfaceInfo,
    )
        requires
            once.is_reset_of(&before),
            twice.is_reset_of(&once),
            fresh.is_new(parameters, &surface),
        ensures
            twice.registry() == once.registry(),
            twice.registry() == fresh.registry(),
            twice.same_setup(&before),
    {
    }

    /// The registry of a renderer is valid at any time, and the renderer
    /// has one to four viewports.
    pub proof fn lemma_always_valid(renderer: Renderer)
        requires
            renderer.wf(),
        ensures
            renderer.registry().valid(),
            1 <= renderer.viewports().len() <= 4,
    {
    }

    /// Every path that a shader, a geometry, a sky or a BSP of a renderer
    /// refers to names an asset of that renderer.
    pub proof fn lemma_dependency_closure(renderer: Renderer)
        requires
            renderer.wf(),
        ensures
            renderer.registry().closed_under_dependencies(),
    {
    }

    /// The pixel data of every sub-bitmap of every bitmap of a renderer is
    /// as long as the blocks of all its mip levels together.
    pub proof fn lemma_pixel_length(renderer: Renderer, path: Seq<char>, index: int)
        requires
            renderer.wf(),
            renderer.registry().bitmaps.contains_key(path),
            0 <= index < renderer.registry().bitmaps[path].bitmaps@.len(),
        ensures
            ({
                let bitmap = renderer.registry().bitmaps[path].bitmaps@[index];
                bitmap.data@.len() == total_block_count(
                    bitmap.format,
                    bitmap.bitmap_type,
                    bitmap.resolution,
                    bitmap.mipmap_count as nat,
                ) * bitmap.format.spec_block_byte_size()
            }),
    {
        assert(renderer.registry().bitmaps[path].valid());
        assert(renderer.registry().bitmaps[path].bitmaps@[index].valid());
    }

    /// Every geometry of a renderer, added by itself or as a material of a
    /// BSP, that has lightmap coordinates has as many as it has vertices.
    pub proof fn lemma_lightmap_parity(renderer: Renderer)
        requires
            renderer.wf(),
        ensures
            forall|path: Seq<char>| #[trigger]
                renderer.registry().geometries.contains_key(path) ==> (
                renderer.registry().geometries[path].lightmap_vertices matches Some(
                    lightmap_vertices,
                ) ==> lightmap_vertices@.len()
                    == renderer.registry().geometries[path].vertices@.len()),
            forall|path: Seq<char>, i: int|
                renderer.registry().bsps.contains_key(path) && 0 <= i
                    < renderer.registry().bsps[path].geometries.len() ==> ((
                #[trigger] renderer.registry().bsps[path].geometries[i]).lightmap_vertices matches Some(
                    lightmap_vertices,
                ) ==> lightmap_vertices@.len()
                    == renderer.registry().bsps[path].geometries[i].vertices@.len()),
    {
        let registry = renderer.registry();
        assert(registry.geometries_consistent());
        assert forall|path: Seq<char>| #[trigger]
            registry.geometries.contains_key(path) implies (
        registry.geometries[path].lightmap_vertices matches Some(lightmap_vertices)
            ==> lightmap_vertices@.len() == registry.geometries[path].vertices@.len()) by {
            assert(registry.geometries[path].lightmap_parity());
        }
        assert forall|path: Seq<char>, i: int|
            registry.bsps.contains_key(path) && 0 <= i < registry.bsps[path].geometries.len() implies ((
        #[trigger] registry.bsps[path].geometries[i]).lightmap_vertices matches Some(
            lightmap_vertices,
        ) ==> lightmap_vertices@.len() == registry.bsps[path].geometries[i].vertices@.len()) by {
            assert(registry.bsps[path].geometries[i].lightmap_parity());
        }
    }

    /// The viewports that a renderer for `count` players starts with.
    pub open spec fn initial_viewports(count: nat) -> Seq<PlayerViewport> {
        Seq::new(count, |i: int| PlayerViewport::spec_layout(i as nat, count))
    }

    /// Makes a renderer for a surface, with no assets and
    /// `number_of_viewports` viewports, laid out over the surface.
    ///
    /// Fails with `InvalidData` where the number of viewports is not one
    /// of 1 to 4; else, with what [`VulkanRenderer::new`] fails with, where
    /// it fails.
    pub fn new(parameters: RendererParameters, surface: &SurfaceInfo) -> (result: MResult<Renderer>)
        ensures
            match result {
                Ok(renderer) => renderer.is_new(parameters, surface),
                Err(error) => if 1 <= parameters.number_of_viewports <= 4 {
                    &&& error matches Error::GraphicsAPIError { backend, message } && backend@
                        == "Vulkan"@ && message@ == if surface.formats@.len() == 0 {
                        "The surface reports no color format"@
                    } else {
                        "The surface supports no composite alpha mode"@
                    }
                    &&& surface.formats@.len() == 0 || surface.supported_composite_alpha@.len()
                        == 0
                } else {
                    error == Error::InvalidData
                },
            },
    {
        let count = parameters.number_of_viewports;
        if count < 1 || count > 4 {
            return Err(Error::InvalidData);
        }
        let backend = match VulkanRenderer::new(&parameters, surface) {
            Ok(backend) => backend,
            Err(error) => {
                return Err(error);
            },
        };
        let mut player_viewports: Vec<PlayerViewport> = Vec::new();
        let mut i: usize = 0;
        while i < count
            invariant
                i <= count <= 4,
                player_viewports@ == Renderer::initial_viewports(count as nat).take(i as int),
            decreases count - i,
        {
            player_viewports.push(PlayerViewport::layout(i, count));
            assert(Renderer::initial_viewports(count as nat).take(i + 1)
                =~= Renderer::initial_viewports(count as nat).take(i as int).push(
                PlayerViewport::spec_layout(i as nat, count as nat),
            ));
            i = i + 1;
        }
        assert(Renderer::initial_viewports(count as nat).take(count as int)
            =~= Renderer::initial_viewports(count as nat));
        let renderer = Renderer {
            renderer: backend,
            player_viewports,
            bitmaps: AssetMap::new(),
            shaders: AssetMap::new(),
            geometries: AssetMap::new(),
            skies: AssetMap::new(),
            bsps: AssetMap::new(),
            current_bsp: None,
        };
        assert(renderer.registry().bsps =~= Map::<Seq<char>, BSPView>::empty());
        assert(renderer.registry().shaders =~= Map::<Seq<char>, ShaderView>::empty());
        Ok(renderer)
    }

    /// Drops every asset and the current BSP; the viewports stay.
    pub fn reset(&mut self)
        requires
            old(self).wf(),
        ensures
            final(self).is_reset_of(old(self)),
    {
        self.bitmaps.clear();
        self.shaders.clear();
        self.geometries.clear();
        self.skies.clear();
        self.bsps.clear();
        self.current_bsp = None;
        assert(self.registry().bsps =~= Map::<Seq<char>, BSPView>::empty());
        assert(self.registry().shaders =~= Map::<Seq<char>, ShaderView>::empty());
    }

    /// Whether an asset of any kind is kept under `path`.
    pub fn has_path(&self, path: &str) -> (found: bool)
        requires
            self.wf(),
        ensures
            found == self.registry().contains_path(path@),
    {
        let key = path.to_owned();
        self.bitmaps.contains_key(&key) || self.shaders.contains_key(&key)
            || self.geometries.contains_key(&key) || self.skies.contains_key(&key)
            || self.bsps.contains_key(&key)
    }

    /// Whether a bitmap is loaded under `path`.
    pub fn has_bitmap(&self, path: &str) -> (found: bool)
        requires
            self.wf(),
        ensures
            found == self.registry().bitmaps.contains_key(path@),
    {
        let key = path.to_owned();
        self.bitmaps.contains_key(&key)
    }

    /// Whether a shader is loaded under `path`.
    pub fn has_shader(&self, path: &str) -> (found: bool)
        requires
            self.wf(),
        ensures
            found == self.registry().shaders.contains_key(path@),
    {
        let key = path.to_owned();
        self.shaders.contains_key(&key)
    }

    /// Whether a geometry is loaded under `path`.
    pub fn has_geometry(&self, path: &str) -> (found: bool)
        requires
            self.wf(),
        ensures
            found == self.registry().geometries.contains_key(path@),
    {
        let key = path.to_owned();
        self.geometries.contains_key(&key)
    }

    /// Whether a sky is loaded under `path`.
    pub fn has_sky(&self, path: &str) -> (found: bool)
        requires
            self.wf(),
        ensures
            found == self.registry().skies.contains_key(path@),
    {
        let key = path.to_owned();
        self.skies.contains_key(&key)
    }

    /// Whether a BSP is loaded under `path`.
    pub fn has_bsp(&self, path: &str) -> (found: bool)
        requires
            self.wf(),
        ensures
            found == self.registry().bsps.contains_key(path@),
    {
        let key = path.to_owned();
        self.bsps.contains_key(&key)
    }

    /// The bitmap that is loaded under `path`.
    pub fn get_bitmap(&self, path: &str) -> (found: Option<&Bitmap>)
        requires
            self.wf(),
        ensures
            match found {
                Some(bitmap) => self.registry().bitmaps.contains_key(path@) && *bitmap
                    == self.registry().bitmaps[path@],
                None => !self.registry().bitmaps.contains_key(path@),
            },
    {
        let key = path.to_owned();
        self.bitmaps.get(&key)
    }

    /// The shader that is loaded under `path`.
    pub fn get_shader(&self, path: &str) -> (found: Option<&Shader>)
        requires
            self.wf(),
        ensures
            match found {
                Some(shader) => self.registry().shaders.contains_key(path@) && shader@
                    == self.registry().shaders[path@],
                None => !self.registry().shaders.contains_key(path@),
            },
    {
        let key = path.to_owned();
        self.shaders.get(&key)
    }

    /// The geometry that is loaded under `path`.
    pub fn get_geometry(&self, path: &str) -> (found: Option<&Geometry>)
        requires
            self.wf(),
        ensures
            match found {
                Some(geometry) => self.registry().geometries.contains_key(path@) && *geometry
                    == self.registry().geometries[path@],
                None => !self.registry().geometries.contains_key(path@),
            },
    {
        let key = path.to_owned();
        self.geometries.get(&key)
    }

    /// The sky that is loaded under `path`.
    pub fn get_sky(&self, path: &str) -> (found: Option<&Sky>)
        requires
            self.wf(),
        ensures
            match found {
                Some(sky) => self.registry().skies.contains_key(path@) && *sky
                    == self.registry().skies[path@],
                None => !self.registry().skies.contains_key(path@),
            },
    {
        let key = path.to_owned();
        self.skies.get(&key)
    }

    /// The BSP that is loaded under `path`.
    pub fn get_bsp(&self, path: &str) -> (found: Option<&BSP>)
        requires
            self.wf(),
        ensures
            match found {
                Some(bsp) => self.registry().bsps.contains_key(path@) && bsp@
                    == self.registry().bsps[path@],
                None => !self.registry().bsps.contains_key(path@),
            },
    {
        let key = path.to_owned();
        self.bsps.get(&key)
    }

    /// The path of the current BSP.
    pub fn get_current_bsp(&self) -> (current: Option<&String>)
        ensures
            match current {
                Some(path) => self.registry().current_bsp == Some(path@),
                None => self.registry().current_bsp is None,
            },
    {
        self.current_bsp.as_ref()
    }

    /// Adds a bitmap under `path`.
    ///
    /// Fails with `AlreadyExists` where an asset of any kind is kept under
    /// `path`, and with `InvalidData` where the path is free and `bitmap` is
    /// not valid. A failure changes nothing.
    pub fn add_bitmap(&mut self, path: &str, bitmap: AddBitmapParameter) -> (result: MResult<()>)
        requires
            old(self).wf(),
        ensures
            final(self).wf(),
            final(self).same_setup(old(self)),
            match result {
                Ok(()) => {
                    &&& !old(self).registry().contains_path(path@)
                    &&& bitmap.valid()
                    &&& final(self).registry() == (Registry {
                        bitmaps: old(self).registry().bitmaps.insert(
                            path@,
                            Bitmap::from_parameters(bitmap),
                        ),
                        ..old(self).registry()
                    })
                },
                Err(error) => {
                    &&& *final(self) == *old(self)
                    &&& old(self).registry().contains_path(path@) ==> error == Error::AlreadyExists
                    &&& !old(self).registry().contains_path(path@) ==> error == Error::InvalidData
                        && !bitmap.valid()
                },
            },
    {
        if self.has_path(path) {
            return Err(Error::AlreadyExists);
        }
        if bitmap.validate().is_err() {
            return Err(Error::InvalidData);
        }
        let record = Bitmap::load_from_parameters(bitmap);
        proof {
            Registry::lemma_add_bitmap(self.registry(), path@, record);
        }
        self.bitmaps.insert(path.to_owned(), record);
        Ok(())
    }

    /// Adds a shader under `path`.
    ///
    /// Fails with `AlreadyExists` where an asset of any kind is kept under
    /// `path`, and with `InvalidData` where the path is free and the base
    /// bitmap of `shader` is not loaded. A failure changes nothing.
    pub fn add_shader(&mut self, path: &str, shader: AddShaderParameter) -> (result: MResult<()>)
        requires
            old(self).wf(),
        ensures
            final(self).wf(),
            final(self).same_setup(old(self)),
            match result {
                Ok(()) => {
                    &&& !old(self).registry().contains_path(path@)
                    &&& shader.valid(old(self).registry())
                    &&& final(self).registry() == (Registry {
                        shaders: old(self).registry().shaders.insert(
                            path@,
                            ShaderView::from_parameters(shader),
                        ),
                        ..old(self).registry()
                    })
                },
                Err(error) => {
                    &&& *final(self) == *old(self)
                    &&& old(self).registry().contains_path(path@) ==> error == Error::AlreadyExists
                    &&& !old(self).registry().contains_path(path@) ==> error == Error::InvalidData
                        && !shader.valid(old(self).registry())
                },
            },
    {
        if self.has_path(path) {
            return Err(Error::AlreadyExists);
        }
        if shader.validate(self).is_err() {
            return Err(Error::InvalidData);
        }
        let record = Shader::load_from_parameters(shader);
        proof {
            Registry::lemma_add_shader(self.registry(), path@, record@);
        }
        let ghost before = self.shaders@;
        self.shaders.insert(path.to_owned(), record);
        assert(self.shaders@.map_values(|shader: Shader| shader@) =~= before.map_values(
            |shader: Shader| shader@,
        ).insert(path@, record@));
        Ok(())
    }

    /// Adds a geometry under `path`.
    ///
    /// Fails with `AlreadyExists` where an asset of any kind is kept under
    /// `path`, and with `InvalidData` where the path is free and `geometry`
    /// is not valid. A failure changes nothing.
    pub fn add_geometry(&mut self, path: &str, geometry: AddGeometryParameter) -> (result: MResult<
        (),
    >)
        requires
            old(self).wf(),
        ensures
            final(self).wf(),
            final(self).same_setup(old(self)),
            match result {
                Ok(()) => {
                    &&& !old(self).registry().contains_path(path@)
                    &&& geometry.valid(old(self).registry())
                    &&& final(self).registry() == (Registry {
                        geometries: old(self).registry().geometries.insert(
                            path@,
                            Geometry::from_parameters(geometry),
                        ),
                        ..old(self).registry()
                    })
                },
                Err(error) => {
                    &&& *final(self) == *old(self)
                    &&& old(self).registry().contains_path(path@) ==> error == Error::AlreadyExists
                    &&& !old(self).registry().contains_path(path@) ==> error == Error::InvalidData
                        && !geometry.valid(old(self).registry())
                },
            },
    {
        if self.has_path(path) {
            return Err(Error::AlreadyExists);
        }
        if geometry.validate(self).is_err() {
            return Err(Error::InvalidData);
        }
        let record = Geometry::load_from_parameters(geometry);
        proof {
            Registry::lemma_add_geometry(self.registry(), path@, record);
        }
        self.geometries.insert(path.to_owned(), record);
        Ok(())
    }

    /// Adds a sky under `path`.
    ///
    /// Fails with `AlreadyExists` where an asset of any kind is kept under
    /// `path`, and with `InvalidData` where the path is free and a bitmap or
    /// model that `sky` names is not loaded. A failure changes nothing.
    pub fn add_sky(&mut self, path: &str, sky: AddSkyParameter) -> (result: MResult<()>)
        requires
            old(self).wf(),
        ensures
            final(self).wf(),
            final(self).same_setup(old(self)),
            match result {
                Ok(()) => {
                    &&& !old(self).registry().contains_path(path@)
                    &&& sky.valid(old(self).registry())
                    &&& final(self).registry() == (Registry {
                        skies: old(self).registry().skies.insert(
                            path@,
                            Sky::from_parameters(sky),
                        ),
                        ..old(self).registry()
                    })
                },
                Err(error) => {
                    &&& *final(self) == *old(self)
                    &&& old(self).registry().contains_path(path@) ==> error == Error::AlreadyExists
                    &&& !old(self).registry().contains_path(path@) ==> error == Error::InvalidData
                        && !sky.valid(old(self).registry())
                },
            },
    {
        if self.has_path(path) {
            return Err(Error::AlreadyExists);
        }
        if sky.validate(self).is_err() {
            return Err(Error::InvalidData);
        }
        let record = Sky::load_from_parameters(sky);
        proof {
            Registry::lemma_add_sky(self.registry(), path@, record);
        }
        self.skies.insert(path.to_owned(), record);
        Ok(())
    }

    /// Adds a BSP under `path`.
    ///
    /// Fails with `AlreadyExists` where an asset of any kind is kept under
    /// `path`, and with `InvalidData` where the path is free and `bsp` is
    /// not valid. A failure changes nothing.
    pub fn add_bsp(&mut self, path: &str, bsp: AddBSPParameter) -> (result: MResult<()>)
        requires
            old(self).wf(),
        ensures
            final(self).wf(),
            final(self).same_setup(old(self)),
            match result {
                Ok(()) => {
                    &&& !old(self).registry().contains_path(path@)
                    &&& bsp.valid(old(self).registry())
                    &&& final(self).registry() == (Registry {
                        bsps: old(self).registry().bsps.insert(
                            path@,
                            BSPView::from_parameters(bsp),
                        ),
                        ..old(self).registry()
                    })
                },
                Err(error) => {
                    &&& *final(self) == *old(self)
                    &&& old(self).registry().contains_path(path@) ==> error == Error::AlreadyExists
                    &&& !old(self).registry().contains_path(path@) ==> error == Error::InvalidData
                        && !bsp.valid(old(self).registry())
                },
            },
    {
        if self.has_path(path) {
            return Err(Error::AlreadyExists);
        }
        if bsp.validate(self).is_err() {
            return Err(Error::InvalidData);
        }
        proof {
            Registry::lemma_add_bsp(self.registry(), path@, bsp);
        }
        let record = BSP::load_from_parameters(bsp);
        let ghost before = self.bsps@;
        self.bsps.insert(path.to_owned(), record);
        assert(self.bsps@.map_values(|bsp: BSP| bsp@) =~= before.map_values(|bsp: BSP| bsp@).insert(
            path@,
            record@,
        ));
        Ok(())
    }

    /// Makes the BSP under `path` the one that is drawn; with `None`, no BSP
    /// is drawn.
    ///
    /// Fails with `NotFound`, and changes nothing, where no BSP is loaded
    /// under `path`.
    pub fn set_current_bsp(&mut self, path: Option<&str>) -> (result: MResult<()>)
        requires
            old(self).wf(),
        ensures
            final(self).wf(),
            final(self).same_setup(old(self)),
            match result {
                Ok(()) => {
                    &&& path matches Some(name) ==> old(self).registry().bsps.contains_key(name@)
                    &&& final(self).registry() == (Registry {
                        current_bsp: match path {
                            Some(name) => Some(name@),
                            None => None,
                        },
                        ..old(self).registry()
                    })
                },
                Err(error) => {
                    &&& *final(self) == *old(self)
                    &&& error == Error::NotFound
                    &&& path matches Some(name) && !old(self).registry().bsps.contains_key(name@)
                },
            },
    {
        match path {
            Some(name) => {
                if !self.has_bsp(name) {
                    return Err(Error::NotFound);
                }
                self.current_bsp = Some(name.to_owned());
            },
            None => {
                self.current_bsp = None;
            },
        }
        Ok(())
    }

    /// The shader that is loaded under `path`.
    pub fn find_shader(&self, path: &String) -> (found: Option<&Shader>)
        requires
            self.wf(),
        ensures
            match found {
                Some(shader) => self.registry().shaders.contains_key(path@) && shader@
                    == self.registry().shaders[path@],
                None => !self.registry().shaders.contains_key(path@),
            },
    {
        self.shaders.get(path)
    }

    /// The sky that is loaded under `path`.
    pub fn find_sky(&self, path: &String) -> (found: Option<&Sky>)
        requires
            self.wf(),
        ensures
            match found {
                Some(sky) => self.registry().skies.contains_key(path@) && *sky
                    == self.registry().skies[path@],
                None => !self.registry().skies.contains_key(path@),
            },
    {
        self.skies.get(path)
    }

    /// The BSP that is drawn, if one is current.
    pub fn drawn_bsp(&self) -> (current: Option<&BSP>)
        requires
            self.wf(),
        ensures
            match current {
                Some(bsp) => self.registry().current_bsp is Some && bsp@
                    == self.registry().drawn_bsp(),
                None => self.registry().current_bsp is None && self.registry().drawn_bsp()
                    == BSPView::empty(),
            },
    {
        match &self.current_bsp {
            Some(path) => {
                let found = self.bsps.get(path);
                assert(found is Some);
                found
            },
            None => None,
        }
    }

    /// The size of the surface.
    pub fn current_resolution(&self) -> (resolution: Resolution)
        ensures
            resolution == self.backend().spec_current_resolution(),
    {
        self.renderer.current_resolution()
    }

    /// The level of anisotropic filtering that the renderer was made with.
    pub fn anisotropic_filtering(&self) -> (level: Option<FloatBits>)
        ensures
            level == self.backend().spec_anisotropic_filtering(),
    {
        self.renderer.anisotropic_filtering()
    }

    /// What the backend holds of the surface.
    pub fn get_backend(&self) -> (backend: &VulkanRenderer)
        ensures
            *backend == self.backend(),
    {
        &self.renderer
    }

    /// Takes the new size of the surface; see [`VulkanRenderer::rebuild_swapchain`].
    pub fn rebuild_swapchain(&mut self, parameters: &RendererParameters) -> (result: MResult<()>)
        requires
            old(self).wf(),
        ensures
            result is Ok,
            final(self).wf(),
            final(self).registry() == old(self).registry(),
            final(self).viewports() == old(self).viewports(),
            final(self).backend().spec_current_resolution() == parameters.resolution,
            final(self).backend().spec_swapchain() == (SwapchainCreateInfo {
                image_extent: parameters.resolution,
                ..old(self).backend().spec_swapchain()
            }),
            final(self).backend().spec_output_format() == old(self).backend().spec_output_format(),
            final(self).backend().spec_anisotropic_filtering()
                == old(self).backend().spec_anisotropic_filtering(),
    {
        self.renderer.rebuild_swapchain(parameters)
    }

    /// Lists the steps that draw a frame; see [`VulkanRenderer::draw_frame`].
    pub fn draw_frame(&self, acquired: AcquireOutcome, camera_clusters: &Vec<Option<usize>>) -> (result:
        MResult<Vec<FrameCommand>>)
        requires
            self.wf(),
        ensures
            match acquired {
                AcquireOutcome::OutOfDate => result == Err::<Vec<FrameCommand>, Error>(
                    Error::SwapchainOutOfDate,
                ),
                AcquireOutcome::Acquired { image_index, .. } => result matches Ok(commands)
                    && commands@ == frame_commands(
                    self.registry(),
                    self.viewports(),
                    self.backend().spec_current_resolution(),
                    image_index,
                    camera_clusters@,
                ),
            },
    {
        VulkanRenderer::draw_frame(self, acquired, camera_clusters)
    }

    /// How many viewports share the surface.
    pub fn viewport_count(&self) -> (count: usize)
        requires
            self.wf(),
        ensures
            count == self.viewports().len(),
            1 <= count <= 4,
    {
        self.player_viewports.len()
    }

    /// Viewport `viewport`, if there is one.
    pub fn get_viewport(&self, viewport: usize) -> (found: Option<PlayerViewport>)
        ensures
            found == if viewport < self.viewports().len() {
                Some(self.viewports()[viewport as int])
            } else {
                None
            },
    {
        if viewport < self.player_viewports.len() {
            Some(self.player_viewports[viewport])
        } else {
            None
        }
    }

    /// Gives viewport `viewport` the camera `camera`.
    ///
    /// Fails with `NotFound`, and changes nothing, where there is no such viewport.
    pub fn set_camera_for_viewport(&mut self, viewport: usize, camera: Camera) -> (result: MResult<
        (),
    >)
        requires
            old(self).wf(),
        ensures
            final(self).wf(),
            final(self).registry() == old(self).registry(),
            final(self).backend() == old(self).backend(),
            match result {
                Ok(()) => {
                    &&& viewport < old(self).viewports().len()
                    &&& final(self).viewports() == old(self).viewports().update(
                        viewport as int,
                        (PlayerViewport { camera, ..old(self).viewports()[viewport as int] }),
                    )
                },
                Err(error) => {
                    &&& *final(self) == *old(self)
                    &&& error == Error::NotFound
                    &&& viewport >= old(self).viewports().len()
                },
            },
    {
        if viewport >= self.player_viewports.len() {
            return Err(Error::NotFound);
        }
        let changed = PlayerViewport { camera, ..self.player_viewports[viewport] };
        self.player_viewports.set(viewport, changed);
        Ok(())
    }
}

} // verus!
