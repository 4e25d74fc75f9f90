//! The arithmetic that this crate is written against.
//!
//! Rotations, rigid poses, vectors and the scalars under them come from a
//! numeric backend of the caller's choice. A backend is a handful of types
//! that implement the traits below; every method is one elementary operation
//! of three-dimensional geometry. The traits promise nothing about what an
//! operation returns. Contracts in this crate therefore speak of results
//! relationally: `call_ensures(V::dot, (a, b), d)` reads "`d` is what the
//! backend's dot product returned for `a` and `b`", and a contract built from
//! such facts fixes which operations were applied to which operands, in
//! which order.

use vstd::prelude::*;
use core::fmt::Debug;
use crate::manifold::{IsGroup, SE3, SO3};

verus! {

/// A real number.
pub trait ScalarRepr: Debug + Copy {
    /// The number `numerator / denominator`.
    fn from_ratio(numerator: i32, denominator: u32) -> Self
        requires
            denominator > 0,
    ;

    /// `self < rhs`.
    fn less_than(self, rhs: Self) -> bool;

    /// `self <= rhs`.
    fn at_most(self, rhs: Self) -> bool;

    /// `self == rhs`.
    fn equals(self, rhs: Self) -> bool;

    /// `self / rhs`.
    fn divided_by(self, rhs: Self) -> Self;

    /// The tangent of the angle `self`, in radians.
    fn tan(self) -> Self;
}

/// A vector of three-dimensional space.
pub trait VectorRepr: Debug + Copy {
    type Scalar: ScalarRepr;

    /// The inner product of `self` and `rhs`.
    fn dot(self, rhs: Self) -> Self::Scalar;

    /// The cross product `self × rhs`.
    fn cross(self, rhs: Self) -> Self;

    /// `self + rhs`.
    fn plus(self, rhs: Self) -> Self;

    /// `self - rhs`.
    fn minus(self, rhs: Self) -> Self;

    /// `self` with each component multiplied by `factor`.
    fn scaled(self, factor: Self::Scalar) -> Self;

    /// `self` with each component divided by `divisor`.
    fn unscaled(self, divisor: Self::Scalar) -> Self;

    /// The Euclidean length of `self`.
    fn norm(self) -> Self::Scalar;

    /// The component of `self` along axis `index`: 0, 1 or 2.
    fn component(self, index: usize) -> Self::Scalar
        requires
            index < 3,
    ;
}

/// The representation of an element of the group `Group`.
pub trait GroupRepr<Group: IsGroup>: Debug + Copy {
    /// The group's composition: `self` after `rhs`.
    fn compose(self, rhs: Self) -> Self;

    /// The inverse of `self`.
    fn inverse(self) -> Self;

    /// The neutral element.
    fn identity() -> Self;
}

/// A rotation of three-dimensional space.
pub trait RotationRepr: GroupRepr<SO3> {
    type Vector: VectorRepr;

    /// The rotation about the axis `axis_angle` by the angle that is the
    /// length of `axis_angle`.
    fn from_scaled_axis(axis_angle: Self::Vector) -> Self;

    /// The axis of `self`, scaled by its angle.
    fn scaled_axis(self) -> Self::Vector;

    /// The angle of `self`, between 0 and π.
    fn angle(self) -> <Self::Vector as VectorRepr>::Scalar;

    /// `vector`, rotated by `self`.
    fn rotate(self, vector: Self::Vector) -> Self::Vector;
}

/// A rigid motion of three-dimensional space: a rotation followed by a
/// translation.
pub trait PoseRepr: GroupRepr<SE3> {
    type Rotation: RotationRepr;

    /// The motion that rotates by `rotation` and then moves by `translation`.
    fn from_parts(
        translation: <Self::Rotation as RotationRepr>::Vector,
        rotation: Self::Rotation,
    ) -> Self;

    /// The rotation part of `self`.
    fn rotation(self) -> Self::Rotation;

    /// The translation part of `self`.
    fn translation(self) -> <Self::Rotation as RotationRepr>::Vector;
}

/// The vectors that the translations of the poses `P` are.
pub type VectorOf<P> = <<P as PoseRepr>::Rotation as RotationRepr>::Vector;

/// The scalars under the poses `P`.
pub type ScalarOf<P> = <<<P as PoseRepr>::Rotation as RotationRepr>::Vector as VectorRepr>::Scalar;

/// A point of an image plane.
pub trait ImageRepr: Debug + Copy {
    type Scalar: ScalarRepr;

    /// The point with abscissa `x` and ordinate `y`.
    fn from_xy(x: Self::Scalar, y: Self::Scalar) -> Self;
}

/// A three-by-three matrix that maps the points of space, as the poses
/// `Pose` place them, to homogeneous coordinates of the image plane whose
/// points are `Image`.
pub trait IntrinsicsRepr: Debug + Copy {
    type Pose: PoseRepr;

    type Image: ImageRepr<Scalar = ScalarOf<Self::Pose>>;

    /// The entry in row `row` and column `column`, both 0, 1 or 2.
    fn entry(self, row: usize, column: usize) -> ScalarOf<Self::Pose>
        requires
            row < 3,
            column < 3,
    ;

    /// The matrix-vector product of `self` and `vector`.
    fn apply(self, vector: VectorOf<Self::Pose>) -> VectorOf<Self::Pose>;
}

} // verus!
