//! Asset registry, pipeline catalog and frame composition rules of a renderer
//! for classic first-person-shooter maps.
//!
//! The library decides; it does not draw. A caller that holds a GPU hands
//! it what the GPU and the surface report, and what the caller wants
//! loaded and shown; the library keeps the registry of assets, settles how
//! the device, the swapchain and the pipelines are to be made, and lists
//! the steps of every frame for the caller to record.
//!
//! - [`error`]: the kinds of failure.
//! - [`types`] and [`vertex`]: colours, vertices and triangles.
//! - [`renderer`]: the renderer, with
//!   - its parameters and their validation ([`renderer::parameters`]),
//!   - the records of loaded assets and the laws of the registry
//!     ([`renderer::data`]),
//!   - the viewports ([`renderer::player_viewport`]),
//!   - and the backend ([`renderer::vulkan`]): choosing a device and
//!     settling the swapchain, the pipeline catalog, the materials, the
//!     buffers of a geometry, and the frame composer.
//!
//! Floating-point numbers pass through the library untouched: they are
//! held by their bit patterns (see [`types::FloatBits`]), and nothing here
//! computes with them.

pub mod error;
pub mod renderer;
pub mod types;
pub mod vertex;
