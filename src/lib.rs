//! Camera navigation and material state for a real-time 3D renderer.
//!
//! Geometry is carried in fixed-point integers (see [`math`]), so every
//! navigation operation is exact and checked.
use vstd::prelude::*;

pub mod camera;
pub mod camera_control;
pub mod depth_material;
pub mod material;
pub mod math;
pub mod volume_raycasting_material;

verus! {

} // verus!
