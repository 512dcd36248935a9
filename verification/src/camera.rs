//! The camera the host renders through: a fixed-vertical orthographic view
//! of the world, scaled down and cleared to black.

use vstd::prelude::*;

use crate::constants::{CAMERA_SCALE_MILLI, WORLD_HEIGHT};

verus! {

pub struct CameraPlugin;

/// The projection the simulation is designed for.
#[derive(Clone, Copy, PartialEq, Eq, Structural, Debug)]
pub struct CameraSettings {
    /// Far clipping plane, in milli-units.
    pub far: i64,
    /// The view always shows this many milli-units vertically.
    pub vertical_milli_units: i64,
    /// Projection scale, in per-mille.
    pub scale_milli: i64,
    /// The view clears to black.
    pub clear_to_black: bool,
}

impl CameraPlugin {
    pub fn camera_setup() -> (c: CameraSettings)
        ensures
            c == (CameraSettings {
                far: 1_000_000i64,
                vertical_milli_units: WORLD_HEIGHT,
                scale_milli: CAMERA_SCALE_MILLI,
                clear_to_black: true,
            }),
    {
        CameraSettings {
            far: 1_000_000,
            vertical_milli_units: WORLD_HEIGHT,
            scale_milli: CAMERA_SCALE_MILLI,
            clear_to_black: true,
        }
    }
}

} // verus!
