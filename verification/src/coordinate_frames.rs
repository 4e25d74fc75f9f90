//! Frame tags for code that needs a few frames and no particular names.

use vstd::prelude::*;
use crate::coordinate_system::IsCoordinateFrameId;

verus! {

#[derive(Debug, Default, Clone, Copy, PartialEq, Eq, Hash, Structural)]
pub struct CoordinateFrameA {}

impl IsCoordinateFrameId for CoordinateFrameA {
    proof fn stateless(a: Self, b: Self) {
    }
}

#[derive(Debug, Default, Clone, Copy, PartialEq, Eq, Hash, Structural)]
pub struct CoordinateFrameB {}

impl IsCoordinateFrameId for CoordinateFrameB {
    proof fn stateless(a: Self, b: Self) {
    }
}

#[derive(Debug, Default, Clone, Copy, PartialEq, Eq, Hash, Structural)]
pub struct CoordinateFrameC {}

impl IsCoordinateFrameId for CoordinateFrameC {
    proof fn stateless(a: Self, b: Self) {
    }
}

} // verus!
