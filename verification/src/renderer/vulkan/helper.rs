//! Choosing the GPU and its queue, and the settings of the swapchain.

use vstd::prelude::*;
use crate::error::{Error, MResult};
use crate::renderer::parameters::{RendererParameters, Resolution};
use crate::types::FloatBits;

verus! {

/// A Vulkan format, by its number in the Vulkan standard.
pub type Format = i32;

/// The format of the depth image: one 32-bit float for each pixel.
pub const DEPTH_FORMAT: Format = 126i32;

/// The kinds of device that Vulkan tells apart.
#[derive(Copy, Clone, Debug, PartialEq, Eq)]
pub enum PhysicalDeviceType {
    DiscreteGpu,
    IntegratedGpu,
    VirtualGpu,
    Cpu,
    Other,
}

impl PhysicalDeviceType {
    /// The place of the kind in the order of preference; less is better.
    pub open spec fn spec_rank(self) -> nat {
        match self {
            PhysicalDeviceType::DiscreteGpu => 0,
            PhysicalDeviceType::IntegratedGpu => 1,
            PhysicalDeviceType::VirtualGpu => 2,
            PhysicalDeviceType::Cpu => 3,
            PhysicalDeviceType::Other => 0xffff_ffff,
        }
    }

    /// The place of the kind in the order of preference; less is better.
    pub fn rank(self) -> (rank: u32)
        ensures
            rank == self.spec_rank(),
    {
        match self {
            PhysicalDeviceType::DiscreteGpu => 0,
            PhysicalDeviceType::IntegratedGpu => 1,
            PhysicalDeviceType::VirtualGpu => 2,
            PhysicalDeviceType::Cpu => 3,
            PhysicalDeviceType::Other => 0xffff_ffff,
        }
    }
}

/// The device features that the renderer deals with.
#[derive(Copy, Clone, Debug, PartialEq, Eq)]
pub struct Features {
    pub dynamic_rendering: bool,
    pub extended_dynamic_state: bool,
    pub sampler_anisotropy: bool,
}

impl Features {
    /// Whether every feature of `other` is also one of `self`.
    pub open spec fn spec_contains(self, other: Features) -> bool {
        &&& other.dynamic_rendering ==> self.dynamic_rendering
        &&& other.extended_dynamic_state ==> self.extended_dynamic_state
        &&& other.sampler_anisotropy ==> self.sampler_anisotropy
    }

    /// Whether every feature of `other` is also one of `self`.
    pub fn contains(&self, other: &Features) -> (all: bool)
        ensures
            all == self.spec_contains(*other),
    {
        (!other.dynamic_rendering || self.dynamic_rendering) && (!other.extended_dynamic_state
            || self.extended_dynamic_state) && (!other.sampler_anisotropy
            || self.sampler_anisotropy)
    }

    /// The features that a device must have: dynamic rendering, extended
    /// dynamic state and, where anisotropic filtering is asked for, sampler
    /// anisotropy.
    pub open spec fn spec_required(anisotropic_filtering: bool) -> Features {
        Features {
            dynamic_rendering: true,
            extended_dynamic_state: true,
            sampler_anisotropy: anisotropic_filtering,
        }
    }

    /// The features that a device must have.
    pub fn required(anisotropic_filtering: bool) -> (features: Features)
        ensures
            features == Features::spec_required(anisotropic_filtering),
    {
        Features {
            dynamic_rendering: true,
            extended_dynamic_state: true,
            sampler_anisotropy: anisotropic_filtering,
        }
    }
}

/// The device extensions that the renderer deals with.
#[derive(Copy, Clone, Debug, PartialEq, Eq)]
pub struct DeviceExtensions {
    pub khr_swapchain: bool,
    pub khr_dynamic_rendering: bool,
    pub ext_extended_dynamic_state: bool,
    pub ext_4444_formats: bool,
}

impl DeviceExtensions {
    /// Whether every extension of `other` is also one of `self`.
    pub open spec fn spec_contains(self, other: DeviceExtensions) -> bool {
        &&& other.khr_swapchain ==> self.khr_swapchain
        &&& other.khr_dynamic_rendering ==> self.khr_dynamic_rendering
        &&& other.ext_extended_dynamic_state ==> self.ext_extended_dynamic_state
        &&& other.ext_4444_formats ==> self.ext_4444_formats
    }

    /// Whether every extension of `other` is also one of `self`.
    pub fn contains(&self, other: &DeviceExtensions) -> (all: bool)
        ensures
            all == self.spec_contains(*other),
    {
        (!other.khr_swapchain || self.khr_swapchain) && (!other.khr_dynamic_rendering
            || self.khr_dynamic_rendering) && (!other.ext_extended_dynamic_state
            || self.ext_extended_dynamic_state) && (!other.ext_4444_formats
            || self.ext_4444_formats)
    }

    /// The extensions of `self` and those of `other` together.
    pub open spec fn spec_union(self, other: DeviceExtensions) -> DeviceExtensions {
        DeviceExtensions {
            khr_swapchain: self.khr_swapchain || other.khr_swapchain,
            khr_dynamic_rendering: self.khr_dynamic_rendering || other.khr_dynamic_rendering,
            ext_extended_dynamic_state: self.ext_extended_dynamic_state
                || other.ext_extended_dynamic_state,
            ext_4444_formats: self.ext_4444_formats || other.ext_4444_formats,
        }
    }

    /// The extensions of `self` and those of `other` together.
    pub fn union(&self, other: &DeviceExtensions) -> (both: DeviceExtensions)
        ensures
            both == self.spec_union(*other),
    {
        DeviceExtensions {
            khr_swapchain: self.khr_swapchain || other.khr_swapchain,
            khr_dynamic_rendering: self.khr_dynamic_rendering || other.khr_dynamic_rendering,
            ext_extended_dynamic_state: self.ext_extended_dynamic_state
                || other.ext_extended_dynamic_state,
            ext_4444_formats: self.ext_4444_formats || other.ext_4444_formats,
        }
    }

    /// The extensions that are in `self` and in `other`.
    pub open spec fn spec_intersection(self, other: DeviceExtensions) -> DeviceExtensions {
        DeviceExtensions {
            khr_swapchain: self.khr_swapchain && other.khr_swapchain,
            khr_dynamic_rendering: self.khr_dynamic_rendering && other.khr_dynamic_rendering,
            ext_extended_dynamic_state: self.ext_extended_dynamic_state
                && other.ext_extended_dynamic_state,
            ext_4444_formats: self.ext_4444_formats && other.ext_4444_formats,
        }
    }

    /// The extensions that are in `self` and in `other`.
    pub fn intersection(&self, other: &DeviceExtensions) -> (common: DeviceExtensions)
        ensures
            common == self.spec_intersection(*other),
    {
        DeviceExtensions {
            khr_swapchain: self.khr_swapchain && other.khr_swapchain,
            khr_dynamic_rendering: self.khr_dynamic_rendering && other.khr_dynamic_rendering,
            ext_extended_dynamic_state: self.ext_extended_dynamic_state
                && other.ext_extended_dynamic_state,
            ext_4444_formats: self.ext_4444_formats && other.ext_4444_formats,
        }
    }

    /// The extension that a device must have: the one for swapchains.
    pub open spec fn spec_required() -> DeviceExtensions {
        DeviceExtensions {
            khr_swapchain: true,
            khr_dynamic_rendering: false,
            ext_extended_dynamic_state: false,
            ext_4444_formats: false,
        }
    }

    /// The extension that a device must have: the one for swapchains.
    pub fn required() -> (extensions: DeviceExtensions)
        ensures
            extensions == DeviceExtensions::spec_required(),
    {
        DeviceExtensions {
            khr_swapchain: true,
            khr_dynamic_rendering: false,
            ext_extended_dynamic_state: false,
            ext_4444_formats: false,
        }
    }

    /// The extensions that are switched on where a device has them.
    pub open spec fn spec_optional() -> DeviceExtensions {
        DeviceExtensions {
            khr_swapchain: false,
            khr_dynamic_rendering: true,
            ext_extended_dynamic_state: true,
            ext_4444_formats: true,
        }
    }

    /// The extensions that are switched on where a device has them.
    pub fn optional() -> (extensions: DeviceExtensions)
        ensures
            extensions == DeviceExtensions::spec_optional(),
    {
        DeviceExtensions {
            khr_swapchain: false,
            khr_dynamic_rendering: true,
            ext_extended_dynamic_state: true,
            ext_4444_formats: true,
        }
    }

    /// The extensions that are switched on on a device that supports
    /// `self`: the required one, and the optional ones that it has.
    pub open spec fn spec_enabled(self) -> DeviceExtensions {
        DeviceExtensions::spec_required().spec_union(
            self.spec_intersection(DeviceExtensions::spec_optional()),
        )
    }

    /// The extensions that are switched on on a device that supports `self`.
    pub fn enabled(&self) -> (extensions: DeviceExtensions)
        ensures
            extensions == self.spec_enabled(),
    {
        DeviceExtensions::required().union(&self.intersection(&DeviceExtensions::optional()))
    }
}

/// What a queue family of a device can do.
#[derive(Copy, Clone, Debug, PartialEq, Eq)]
pub struct QueueFamily {
    /// Whether the family takes graphics commands.
    pub graphics: bool,
    /// Whether the family can present to the surface.
    pub present: bool,
}

impl QueueFamily {
    /// Whether the family can both draw and present.
    pub open spec fn usable(self) -> bool {
        self.graphics && self.present
    }
}

/// What a physical device reports of itself.
#[derive(Clone, Debug, PartialEq, Eq)]
pub struct PhysicalDevice {
    pub device_type: PhysicalDeviceType,
    pub supported_features: Features,
    pub supported_extensions: DeviceExtensions,
    pub queue_families: Vec<QueueFamily>,
}

impl PhysicalDevice {
    /// Whether the device can be used: it has the features in `required`
    /// and the swapchain extension, and one of its queue families can both
    /// draw and present. Only the first 2^32 queue families count: Vulkan
    /// numbers them with 32 bits.
    pub open spec fn suitable(&self, required: Features) -> bool {
        &&& self.supported_features.spec_contains(required)
        &&& self.supported_extensions.spec_contains(DeviceExtensions::spec_required())
        &&& exists|q: int|
            0 <= q < self.queue_families@.len() && q <= u32::MAX && (
            #[trigger] self.queue_families@[q]).usable()
    }

    /// Whether `family` is the first queue family that can both draw and present.
    pub open spec fn first_usable_family(&self, family: int) -> bool {
        &&& 0 <= family < self.queue_families@.len()
        &&& self.queue_families@[family].usable()
        &&& forall|q: int| 0 <= q < family ==> !(#[trigger] self.queue_families@[q]).usable()
    }

    /// The first queue family that can both draw and present, if any of the
    /// first 2^32 can.
    pub fn find_queue_family(&self) -> (found: Option<u32>)
        ensures
            match found {
                Some(family) => self.first_usable_family(family as int),
                None => forall|q: int|
                    0 <= q < self.queue_families@.len() && q <= u32::MAX ==> !(
                    #[trigger] self.queue_families@[q]).usable(),
            },
    {
        let mut q: usize = 0;
        while q < self.queue_families.len() && q <= 0xffff_ffff
            invariant
                q <= self.queue_families@.len(),
                q <= 0x1_0000_0000,
                forall|k: int| 0 <= k < q ==> !(#[trigger] self.queue_families@[k]).usable(),
            decreases self.queue_families@.len() - q,
        {
            if self.queue_families[q].graphics && self.queue_families[q].present {
                return Some(q as u32);
            }
            q = q + 1;
        }
        None
    }
}

/// What was decided of the device to make.
#[derive(Copy, Clone, Debug, PartialEq, Eq)]
pub struct LoadedVulkan {
    /// The place of the chosen device among those that were listed.
    pub physical_device: usize,
    /// The queue family to draw and present with.
    pub queue_family_index: u32,
    pub enabled_extensions: DeviceExtensions,
    pub enabled_features: Features,
}

/// Whether `choice` is the best of `devices`: it is suitable, no suitable
/// device is of a better kind, and none of the same kind was listed before it.
pub open spec fn is_best_gpu(devices: Seq<PhysicalDevice>, required: Features, choice: int) -> bool {
    &&& 0 <= choice < devices.len()
    &&& devices[choice].suitable(required)
    &&& forall|other: int|
        0 <= other < devices.len() && (#[trigger] devices[other]).suitable(required) ==> {
            ||| devices[choice].device_type.spec_rank() < devices[other].device_type.spec_rank()
            ||| (devices[choice].device_type.spec_rank() == devices[other].device_type.spec_rank()
                && choice <= other)
        }
}

/// Picks the best of `devices` for the renderer: of the suitable ones, a
/// discrete GPU before an integrated one, that before a virtual one, that
/// before a CPU, that before any other; of several of the best kind, the
/// one that was listed first. With it come its first queue family that can
/// draw and present, and the extensions to switch on.
pub fn find_best_gpu(devices: &Vec<PhysicalDevice>, required_device_features: Features) -> (found:
    Option<(usize, u32, DeviceExtensions)>)
    ensures
        match found {
            Some((device, family, extensions)) => {
                &&& is_best_gpu(devices@, required_device_features, device as int)
                &&& devices@[device as int].first_usable_family(family as int)
                &&& extensions == devices@[device as int].supported_extensions.spec_enabled()
            },
            None => forall|i: int|
                0 <= i < devices@.len() ==> !(#[trigger] devices@[i]).suitable(
                    required_device_features,
                ),
        },
{
    let mut best: Option<(usize, u32, DeviceExtensions)> = None;
    let mut best_rank: u32 = 0;
    let mut i: usize = 0;
    while i < devices.len()
        invariant
            i <= devices@.len(),
            match best {
                Some((device, family, extensions)) => {
                    &&& device < i
                    &&& is_best_gpu(
                        devices@.take(i as int),
                        required_device_features,
                        device as int,
                    )
                    &&& devices@[device as int].first_usable_family(family as int)
                    &&& extensions == devices@[device as int].supported_extensions.spec_enabled()
                    &&& best_rank == devices@[device as int].device_type.spec_rank()
                },
                None => forall|k: int|
                    0 <= k < i ==> !(#[trigger] devices@[k]).suitable(required_device_features),
            },
        decreases devices@.len() - i,
    {
        let device = &devices[i];
        let ghost before = devices@.take(i as int);
        let ghost after = devices@.take(i + 1);
        assert(forall|k: int| 0 <= k < i ==> before[k] == after[k]);
        assert(after[i as int] == devices@[i as int]);
        let mut taken = false;
        if device.supported_features.contains(&required_device_features)
            && device.supported_extensions.contains(&DeviceExtensions::required()) {
            match device.find_queue_family() {
                Some(family) => {
                    let rank = device.device_type.rank();
                    if best.is_none() || rank < best_rank {
                        best = Some((i, family, device.supported_extensions.enabled()));
                        best_rank = rank;
                        taken = true;
                    }
                },
                None => {},
            }
        }
        proof {
            if taken {
                assert(is_best_gpu(after, required_device_features, i as int));
            } else if best is Some {
                assert(is_best_gpu(after, required_device_features, best.unwrap().0 as int));
            }
        }
        i = i + 1;
    }
    assert(devices@.take(devices@.len() as int) =~= devices@);
    best
}

/// Decides which device to make, with which queue, extensions and
/// features: the best of `devices` (see [`find_best_gpu`]), with the
/// required features switched on.
///
/// Fails with a `GraphicsAPIError` of the backend `"Vulkan"` exactly where
/// none of `devices` is suitable.
pub fn load_vulkan_and_get_queue(
    devices: &Vec<PhysicalDevice>,
    anisotropic_filtering: Option<FloatBits>,
) -> (result: MResult<LoadedVulkan>)
    ensures
        match result {
            Ok(loaded) => {
                &&& is_best_gpu(
                    devices@,
                    Features::spec_required(anisotropic_filtering is Some),
                    loaded.physical_device as int,
                )
                &&& devices@[loaded.physical_device as int].first_usable_family(
                    loaded.queue_family_index as int,
                )
                &&& loaded.enabled_extensions
                    == devices@[loaded.physical_device as int].supported_extensions.spec_enabled()
                &&& loaded.enabled_features == Features::spec_required(
                    anisotropic_filtering is Some,
                )
            },
            Err(error) => {
                &&& error matches Error::GraphicsAPIError { backend, message } && backend@
                    == "Vulkan"@ && message@ == "No suitable Vulkan-compatible GPUs found"@
                &&& forall|i: int|
                    0 <= i < devices@.len() ==> !(#[trigger] devices@[i]).suitable(
                        Features::spec_required(anisotropic_filtering is Some),
                    )
            },
        },
{
    let required_device_features = Features::required(anisotropic_filtering.is_some());
    match find_best_gpu(devices, required_device_features) {
        Some((physical_device, queue_family_index, enabled_extensions)) => Ok(
            LoadedVulkan {
                physical_device,
                queue_family_index,
                enabled_extensions,
                enabled_features: required_device_features,
            },
        ),
        None => Err(
            Error::from_vulkan_error("No suitable Vulkan-compatible GPUs found".to_owned()),
        ),
    }
}

/// How a swapchain hands images to the display.
#[derive(Copy, Clone, Debug, PartialEq, Eq)]
pub enum PresentMode {
    /// Waits for the display's refresh.
    Fifo,
    /// Shows each image at once.
    Immediate,
}

/// How the alpha of a presented image is treated.
#[derive(Copy, Clone, Debug, PartialEq, Eq)]
pub enum CompositeAlpha {
    Opaque,
    PreMultiplied,
    PostMultiplied,
    Inherit,
}

/// What the images of a swapchain are used for.
#[derive(Copy, Clone, Debug, PartialEq, Eq)]
pub struct ImageUsage {
    pub color_attachment: bool,
    pub transfer_dst: bool,
}

/// What a surface reports of itself on the chosen device.
#[derive(Clone, Debug, PartialEq, Eq)]
pub struct SurfaceInfo {
    /// The colour formats, in the order in which the surface reports them.
    pub formats: Vec<Format>,
    /// The least number of images that a swapchain for the surface must have.
    pub min_image_count: u32,
    /// The supported ways of compositing, in the order in which the surface reports them.
    pub supported_composite_alpha: Vec<CompositeAlpha>,
}

/// The settings that a swapchain is made with.
#[derive(Copy, Clone, Debug, PartialEq, Eq)]
pub struct SwapchainCreateInfo {
    pub min_image_count: u32,
    pub image_format: Format,
    pub image_extent: Resolution,
    pub image_usage: ImageUsage,
    pub present_mode: PresentMode,
    pub composite_alpha: CompositeAlpha,
}

/// The settings of the swapchain for a surface, whatever the surface can
/// composite first.
pub open spec fn swapchain_settings(
    image_format: Format,
    renderer_parameters: RendererParameters,
    min_image_count: u32,
    composite_alpha: CompositeAlpha,
) -> SwapchainCreateInfo {
    SwapchainCreateInfo {
        min_image_count: if min_image_count < 2 {
            2
        } else {
            min_image_count
        },
        image_format,
        image_extent: renderer_parameters.resolution,
        image_usage: ImageUsage { color_attachment: true, transfer_dst: true },
        present_mode: if renderer_parameters.vsync {
            PresentMode::Fifo
        } else {
            PresentMode::Immediate
        },
        composite_alpha,
    }
}

/// Settles the swapchain: at least two images, and no fewer than the
/// surface asks for; images of `image_format` and of the size asked for,
/// used as colour attachments and as targets of transfers; presented in
/// step with the display where `vsync` is asked for, and at once where it
/// is not; composited in the first way that the surface supports.
///
/// Fails with a `GraphicsAPIError` of the backend `"Vulkan"` exactly where
/// the surface supports no way of compositing.
pub fn build_swapchain(
    image_format: Format,
    renderer_parameters: &RendererParameters,
    surface: &SurfaceInfo,
) -> (result: MResult<SwapchainCreateInfo>)
    ensures
        match result {
            Ok(info) => {
                &&& surface.supported_composite_alpha@.len() > 0
                &&& info == swapchain_settings(
                    image_format,
                    *renderer_parameters,
                    surface.min_image_count,
                    surface.supported_composite_alpha@[0],
                )
            },
            Err(error) => {
                &&& error matches Error::GraphicsAPIError { backend, message } && backend@
                    == "Vulkan"@ && message@ == "The surface supports no composite alpha mode"@
                &&& surface.supported_composite_alpha@.len() == 0
            },
        },
{
    if surface.supported_composite_alpha.len() == 0 {
        return Err(
            Error::from_vulkan_error("The surface supports no composite alpha mode".to_owned()),
        );
    }
    Ok(
        SwapchainCreateInfo {
            min_image_count: if surface.min_image_count < 2 {
                2
            } else {
                surface.min_image_count
            },
            image_format,
            image_extent: renderer_parameters.resolution,
            image_usage: ImageUsage { color_attachment: true, transfer_dst: true },
            present_mode: if renderer_parameters.vsync {
                PresentMode::Fifo
            } else {
                PresentMode::Immediate
            },
            composite_alpha: surface.supported_composite_alpha[0],
        },
    )
}

} // verus!
