//! Quantities anchored to a named coordinate frame at a time instant, and the
//! transforms that carry them from one frame to another.
//!
//! A value of this crate always knows the coordinate system it is expressed
//! in: a frame tag fixed at compile time, a timestamp checked at run time,
//! and a manifold tag that says what kind of space the numbers live in.
//! Every operation that combines two values states in its contract which
//! coordinate systems it accepts and which one its result is anchored to.
//!
//! The numbers themselves are supplied by the caller through the traits of
//! [`numeric`]; this crate never looks inside them.

pub mod manifold;
pub mod coordinate_system;
pub mod coordinate_frames;
pub mod coordinate_system_ids;
pub mod numeric;
pub mod group;
pub mod lie;
pub mod transform;
pub mod static_transform;

pub use crate::manifold::{
    Differentiable, IsGroup, IsLieAlgebra, IsLieGroup, IsManifold, IsVectorSpace, R2, R3, RP2,
    SE2, SE3, SO2, SO3, se3, so3,
};
pub use crate::coordinate_system::{
    CoordinateFrame, CoordinateSystem, IsCoordinateFrameId, IsManifoldElement, ManifoldElement,
    Point,
};
pub use crate::coordinate_frames::{CoordinateFrameA, CoordinateFrameB, CoordinateFrameC};
pub use crate::coordinate_system_ids::{
    LeftCameraImage, LeftCameraSE3, RightCameraImage, RightCameraSE3,
};
pub use crate::numeric::{
    GroupRepr, ImageRepr, IntrinsicsRepr, PoseRepr, RotationRepr, ScalarOf, ScalarRepr, VectorOf,
    VectorRepr,
};
pub use crate::group::IsGroupElement;
pub use crate::lie::{
    near_identity, rigid_exp, rigid_log, split_along, IsLieAlgebraPoint, IsLieGroupPoint,
    LieAlgebraPoint, Twist, SINGULARITY_THRESHOLD_DENOMINATOR, SINGULARITY_THRESHOLD_NUMERATOR,
};
pub use crate::transform::{
    has_canonical_last_row, FrameMismatch, IsTransform, MalformedProjection, Projected,
    ProjectiveTransform, SE3Transform, Transform,
};
pub use crate::static_transform::{StaticProjectiveTransform, StaticSE3Transform};
