//! The kinds of failure that the renderer reports.

use vstd::prelude::*;

verus! {

/// Why a renderer operation failed.
#[derive(Debug, Clone, PartialEq, Eq)]
pub enum Error {
    /// A parameter broke a documented invariant: a range, a parity or a dependency.
    InvalidData,
    /// A named asset was not loaded when it was referred to.
    NotFound,
    /// An asset was added under a path that is already taken.
    AlreadyExists,
    /// The graphics backend or its driver reported a failure.
    GraphicsAPIError { backend: &'static str, message: String },
    /// The surface changed; the swapchain has to be rebuilt before the next frame.
    SwapchainOutOfDate,
}

/// The result of a renderer operation.
pub type MResult<T> = Result<T, Error>;

impl Error {
    /// A failure reported by Vulkan itself.
    pub fn from_vulkan_error(error: String) -> (e: Error)
        ensures
            e == (Error::GraphicsAPIError { backend: "Vulkan", message: error }),
    {
        Error::GraphicsAPIError { backend: "Vulkan", message: error }
    }

    /// A failure of this renderer's own use of Vulkan.
    pub fn from_vulkan_impl_error(error: String) -> (e: Error)
        ensures
            e == (Error::GraphicsAPIError { backend: "Vulkan-IMPL", message: error }),
    {
        Error::GraphicsAPIError { backend: "Vulkan-IMPL", message: error }
    }
}

} // verus!
