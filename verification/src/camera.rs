//! The camera: where a renderer looks from.

use vstd::prelude::*;
use crate::fixed::ONE;
use crate::vector::Vec2;

verus! {

/// The corner of the world that is in view, and the magnification.
#[derive(Debug, Clone, Copy, PartialEq, Eq, Structural)]
pub struct Camera {
    pub position: Vec2,
    pub zoom: i64,
}

impl Camera {
    /// The camera at the origin without magnification.
    pub open spec fn default_spec() -> Camera {
        Camera { position: Vec2::zero_spec(), zoom: ONE }
    }

    /// The camera at `position` with the magnification `zoom`.
    pub fn new(position: Vec2, zoom: i64) -> (r: Self)
        ensures
            r == (Camera { position, zoom }),
    {
        Camera { position, zoom }
    }
}

impl Default for Camera {
    fn default() -> (r: Camera)
        ensures
            r == Camera::default_spec(),
    {
        Camera { position: Vec2::zero(), zoom: ONE }
    }
}

} // verus!
