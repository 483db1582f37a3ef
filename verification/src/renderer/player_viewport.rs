//! The viewports that share the surface, and the camera of each.

use vstd::prelude::*;
use crate::types::{FloatBits, FLOAT_HALF, FLOAT_ONE, FLOAT_ZERO};

verus! {

/// The bit pattern of 56 degrees in radians, the default field of view.
pub const DEFAULT_FOV: FloatBits = 0x3F7A_35DDu32;

/// The part of the surface that one player sees, relative to the surface's size.
#[derive(Copy, Clone, Debug, PartialEq, Eq)]
pub struct PlayerViewport {
    /// Relative X of the viewport (0.0-1.0)
    pub rel_x: FloatBits,
    /// Relative Y of the viewport (0.0-1.0)
    pub rel_y: FloatBits,
    /// Width of the viewport (0.0-1.0)
    pub rel_width: FloatBits,
    /// Height of the viewport (0.0-1.0)
    pub rel_height: FloatBits,
    /// Camera data
    pub camera: Camera,
}

/// Where a player looks from, and how.
#[derive(Copy, Clone, Debug, PartialEq, Eq)]
pub struct Camera {
    /// FoV in radians
    pub fov: FloatBits,
    /// Position in the map of the camera
    pub position: [FloatBits; 3],
    /// The direction in which the camera looks
    pub rotation: [FloatBits; 3],
    /// Whether everything is drawn fully lit, with no lightmap applied.
    pub fullbright: bool,
}

impl Camera {
    /// The camera that a viewport starts with: at the origin, looking along
    /// the Y axis, with a field of view of 56 degrees.
    pub open spec fn spec_default() -> Camera {
        Camera {
            fov: DEFAULT_FOV,
            position: [FLOAT_ZERO, FLOAT_ZERO, FLOAT_ZERO],
            rotation: [FLOAT_ZERO, FLOAT_ONE, FLOAT_ZERO],
            fullbright: false,
        }
    }
}

impl Default for Camera {
    fn default() -> (camera: Camera)
        ensures
            camera == Camera::spec_default(),
    {
        Camera {
            fov: DEFAULT_FOV,
            position: [FLOAT_ZERO, FLOAT_ZERO, FLOAT_ZERO],
            rotation: [FLOAT_ZERO, FLOAT_ONE, FLOAT_ZERO],
            fullbright: false,
        }
    }
}

impl PlayerViewport {
    /// A viewport over the whole surface, with the default camera.
    pub open spec fn spec_default() -> PlayerViewport {
        PlayerViewport {
            rel_x: FLOAT_ZERO,
            rel_y: FLOAT_ZERO,
            rel_width: FLOAT_ONE,
            rel_height: FLOAT_ONE,
            camera: Camera::spec_default(),
        }
    }

    /// Viewport `index` of `count` that share the surface. One has it all;
    /// two take the upper and the lower half; of three, the first takes the
    /// upper half and the others the lower quarters; four take a quarter each.
    pub open spec fn spec_layout(index: nat, count: nat) -> PlayerViewport {
        let lower = index >= 1 && (count == 2 || count == 3) || index >= 2 && count == 4;
        let right = (index == 2 && count == 3) || ((index == 1 || index == 3) && count == 4);
        let full_width = count <= 2 || (count == 3 && index == 0);
        PlayerViewport {
            rel_x: if right {
                FLOAT_HALF
            } else {
                FLOAT_ZERO
            },
            rel_y: if lower {
                FLOAT_HALF
            } else {
                FLOAT_ZERO
            },
            rel_width: if full_width {
                FLOAT_ONE
            } else {
                FLOAT_HALF
            },
            rel_height: if count <= 1 {
                FLOAT_ONE
            } else {
                FLOAT_HALF
            },
            camera: Camera::spec_default(),
        }
    }

    /// Makes viewport `index` of `count` that share the surface.
    pub fn layout(index: usize, count: usize) -> (viewport: PlayerViewport)
        ensures
            viewport == PlayerViewport::spec_layout(index as nat, count as nat),
    {
        let lower = index >= 1 && (count == 2 || count == 3) || index >= 2 && count == 4;
        let right = (index == 2 && count == 3) || ((index == 1 || index == 3) && count == 4);
        let full_width = count <= 2 || (count == 3 && index == 0);
        PlayerViewport {
            rel_x: if right {
                FLOAT_HALF
            } else {
                FLOAT_ZERO
            },
            rel_y: if lower {
                FLOAT_HALF
            } else {
                FLOAT_ZERO
            },
            rel_width: if full_width {
                FLOAT_ONE
            } else {
                FLOAT_HALF
            },
            rel_height: if count <= 1 {
                FLOAT_ONE
            } else {
                FLOAT_HALF
            },
            camera: Camera::default(),
        }
    }
}

impl Default for PlayerViewport {
    fn default() -> (viewport: PlayerViewport)
        ensures
            viewport == PlayerViewport::spec_default(),
    {
        PlayerViewport {
            rel_x: FLOAT_ZERO,
            rel_y: FLOAT_ZERO,
            rel_width: FLOAT_ONE,
            rel_height: FLOAT_ONE,
            camera: Camera::default(),
        }
    }
}

} // verus!
