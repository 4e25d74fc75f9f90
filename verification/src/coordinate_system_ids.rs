//! Frame tags of a stereo camera rig: for each camera its body frame, in
//! which poses are expressed, and its image plane.

use vstd::prelude::*;
use crate::coordinate_system::IsCoordinateFrameId;

verus! {

#[derive(Debug, Default, Clone, Copy, PartialEq, Eq, Hash, Structural)]
pub struct LeftCameraSE3 {}

impl IsCoordinateFrameId for LeftCameraSE3 {
    proof fn stateless(a: Self, b: Self) {
    }
}

#[derive(Debug, Default, Clone, Copy, PartialEq, Eq, Hash, Structural)]
pub struct LeftCameraImage {}

impl IsCoordinateFrameId for LeftCameraImage {
    proof fn stateless(a: Self, b: Self) {
    }
}

#[derive(Debug, Default, Clone, Copy, PartialEq, Eq, Hash, Structural)]
pub struct RightCameraSE3 {}

impl IsCoordinateFrameId for RightCameraSE3 {
    proof fn stateless(a: Self, b: Self) {
    }
}

#[derive(Debug, Default, Clone, Copy, PartialEq, Eq, Hash, Structural)]
pub struct RightCameraImage {}

impl IsCoordinateFrameId for RightCameraImage {
    proof fn stateless(a: Self, b: Self) {
    }
}

} // verus!
