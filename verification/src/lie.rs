//! Exponential and logarithm maps of the rotation group and of the group of
//! rigid motions, and interpolation along geodesics.

use vstd::prelude::*;
use core::fmt::Debug;
use vstd::std_specs::convert::FromSpecImpl;
use crate::coordinate_system::{
    CoordinateSystem, IsCoordinateFrameId, IsManifoldElement, ManifoldElement,
};
use crate::group::IsGroupElement;
use crate::manifold::{IsLieAlgebra, IsLieGroup, SE3, SO3, se3, so3};
use crate::numeric::{PoseRepr, RotationRepr, ScalarRepr, VectorRepr};

verus! {

/// The angular part `w` and the linear part `v` of a rigid motion's rate of
/// change.
#[derive(Debug)]
pub struct Twist<V: VectorRepr> {
    pub w: V,
    pub v: V,
}

impl<V: VectorRepr> Clone for Twist<V> {
    fn clone(&self) -> (r: Self)
        ensures
            r == *self,
    {
        *self
    }
}

impl<V: VectorRepr> Copy for Twist<V> {

}

/// Numerator of the angle, in radians, below which a rotation counts as the
/// identity.
pub const SINGULARITY_THRESHOLD_NUMERATOR: i32 = 1;

/// Denominator of the angle, in radians, below which a rotation counts as
/// the identity.
pub const SINGULARITY_THRESHOLD_DENOMINATOR: u32 = 1_000_000;

/// `near` is the answer to whether the angle `theta` is below the
/// singularity threshold.
pub open spec fn is_near_identity<S: ScalarRepr>(theta: S, near: bool) -> bool {
    exists|threshold: S|
        {
            &&& call_ensures(
                S::from_ratio,
                (SINGULARITY_THRESHOLD_NUMERATOR, SINGULARITY_THRESHOLD_DENOMINATOR),
                threshold,
            )
            &&& call_ensures(S::less_than, (theta, threshold), near)
        }
}

/// Whether the angle `theta` is so small that the closed forms of the
/// exponential and of the logarithm, which divide by it, are replaced by
/// their first-order limits. Both maps decide by this one function.
pub fn near_identity<S: ScalarRepr>(theta: S) -> (near: bool)
    ensures
        is_near_identity(theta, near),
{
    let threshold = S::from_ratio(
        SINGULARITY_THRESHOLD_NUMERATOR,
        SINGULARITY_THRESHOLD_DENOMINATOR,
    );
    theta.less_than(threshold)
}

/// `along` is the projection of `t` on the unit vector `axis`, and `across`
/// is what is left of `t`.
pub open spec fn is_split<V: VectorRepr>(t: V, axis: V, along: V, across: V) -> bool {
    exists|d: V::Scalar|
        {
            &&& call_ensures(V::dot, (t, axis), d)
            &&& call_ensures(V::scaled, (axis, d), along)
            &&& call_ensures(V::minus, (t, along), across)
        }
}

/// Splits `t` into its part along the unit vector `axis` and its part
/// across it, in this order.
pub fn split_along<V: VectorRepr>(t: V, axis: V) -> (parts: (V, V))
    ensures
        is_split(t, axis, parts.0, parts.1),
{
    let d = t.dot(axis);
    let along = axis.scaled(d);
    let across = t.minus(along);
    (along, across)
}

/// `lever` is `(across × axis) / (2 tan(theta / 2)) - across / 2`.
pub open spec fn is_log_lever<V: VectorRepr>(
    across: V,
    axis: V,
    theta: V::Scalar,
    lever: V,
) -> bool {
    exists|two: V::Scalar, c: V, c2: V, half: V::Scalar, tn: V::Scalar, a: V, h: V|
        {
            &&& call_ensures(V::Scalar::from_ratio, (2i32, 1u32), two)
            &&& call_ensures(V::cross, (across, axis), c)
            &&& call_ensures(V::unscaled, (c, two), c2)
            &&& call_ensures(V::Scalar::divided_by, (theta, two), half)
            &&& call_ensures(V::Scalar::tan, (half,), tn)
            &&& call_ensures(V::unscaled, (c2, tn), a)
            &&& call_ensures(V::unscaled, (across, two), h)
            &&& call_ensures(V::minus, (a, h), lever)
        }
}

fn log_lever<V: VectorRepr>(across: V, axis: V, theta: V::Scalar) -> (lever: V)
    ensures
        is_log_lever(across, axis, theta, lever),
{
    let two = V::Scalar::from_ratio(2, 1);
    let c = across.cross(axis);
    let c2 = c.unscaled(two);
    let half = theta.divided_by(two);
    let tn = half.tan();
    let a = c2.unscaled(tn);
    let h = across.unscaled(two);
    a.minus(h)
}

/// `v` is the linear part of the logarithm of a rigid motion with rotation
/// vector `w`, angle `theta` and translation `t`, by the closed form for
/// angles away from zero: with `axis = w / theta`, and `t` split along and
/// across `axis`, it is `w × lever + along`, where `lever` is as
/// [`is_log_lever`] has it.
pub open spec fn is_log_linear_part<V: VectorRepr>(w: V, theta: V::Scalar, t: V, v: V) -> bool {
    exists|axis: V, along: V, across: V, lever: V, turned: V|
        {
            &&& call_ensures(V::unscaled, (w, theta), axis)
            &&& is_split(t, axis, along, across)
            &&& is_log_lever(across, axis, theta, lever)
            &&& call_ensures(V::cross, (w, lever), turned)
            &&& call_ensures(V::plus, (turned, along), v)
        }
}

/// `twist` is the logarithm of the rigid motion `pose`. Its angular part is
/// the rotation vector of the rotation of `pose`. Its linear part is the
/// translation of `pose` itself where the rotation's angle is below the
/// singularity threshold, and otherwise as [`is_log_linear_part`] has it.
pub open spec fn is_rigid_log<P: PoseRepr>(
    pose: P,
    twist: Twist<<P::Rotation as RotationRepr>::Vector>,
) -> bool {
    exists|
        rotation: P::Rotation,
        theta: <<P::Rotation as RotationRepr>::Vector as VectorRepr>::Scalar,
        near: bool,
        t: <P::Rotation as RotationRepr>::Vector,
    |
        #![trigger
            call_ensures(P::Rotation::angle, (rotation,), theta),
            is_near_identity(theta, near),
            call_ensures(P::translation, (pose,), t),
        ]
        {
            &&& call_ensures(P::rotation, (pose,), rotation)
            &&& call_ensures(P::Rotation::scaled_axis, (rotation,), twist.w)
            &&& call_ensures(P::Rotation::angle, (rotation,), theta)
            &&& is_near_identity(theta, near)
            &&& call_ensures(P::translation, (pose,), t)
            &&& if near {
                twist.v == t
            } else {
                is_log_linear_part(twist.w, theta, t, twist.v)
            }
        }
}

/// The logarithm of the rigid motion `pose`: the twist that the exponential
/// map sends to `pose`.
pub fn rigid_log<P: PoseRepr>(pose: P) -> (twist: Twist<<P::Rotation as RotationRepr>::Vector>)
    ensures
        is_rigid_log(pose, twist),
{
    let rotation = pose.rotation();
    let w = rotation.scaled_axis();
    let theta = rotation.angle();
    let near = near_identity(theta);
    let t = pose.translation();
    let v = if near {
        t
    } else {
        let axis = w.unscaled(theta);
        let (along, across) = split_along(t, axis);
        let lever = log_lever(across, axis, theta);
        let v = w.cross(lever).plus(along);
        assert(is_log_linear_part(w, theta, t, v));
        v
    };
    Twist { w, v }
}

/// `t` is the translation of the exponential of a twist with angular part
/// `w` and linear part `v`, where `theta` is the length of `w` and
/// `rotation` the rotation by `w`, by the closed form for angles away from
/// zero: with `axis = w / theta`, and `v` split along and across `axis`, and
/// `lever = (across × axis) / theta`, it is
/// `(rotation · lever - lever) + along`.
pub open spec fn is_exp_translation<R: RotationRepr>(
    w: R::Vector,
    theta: <R::Vector as VectorRepr>::Scalar,
    rotation: R,
    v: R::Vector,
    t: R::Vector,
) -> bool {
    exists|
        axis: R::Vector,
        along: R::Vector,
        across: R::Vector,
        c: R::Vector,
        lever: R::Vector,
        turned: R::Vector,
        swept: R::Vector,
    |
        {
            &&& call_ensures(R::Vector::unscaled, (w, theta), axis)
            &&& is_split(v, axis, along, across)
            &&& call_ensures(R::Vector::cross, (across, axis), c)
            &&& call_ensures(R::Vector::unscaled, (c, theta), lever)
            &&& call_ensures(R::rotate, (rotation, lever), turned)
            &&& call_ensures(R::Vector::minus, (turned, lever), swept)
            &&& call_ensures(R::Vector::plus, (swept, along), t)
        }
}

/// `pose` is the exponential of `twist`. Its rotation is the rotation by the
/// angular part of `twist`. Its translation is the linear part of `twist`
/// itself where the length of the angular part is below the singularity
/// threshold, and otherwise as [`is_exp_translation`] has it.
pub open spec fn is_rigid_exp<P: PoseRepr>(
    twist: Twist<<P::Rotation as RotationRepr>::Vector>,
    pose: P,
) -> bool {
    exists|
        rotation: P::Rotation,
        theta: <<P::Rotation as RotationRepr>::Vector as VectorRepr>::Scalar,
        near: bool,
        t: <P::Rotation as RotationRepr>::Vector,
    |
        #![trigger
            is_near_identity(theta, near),
            call_ensures(P::from_parts, (t, rotation), pose),
        ]
        {
            &&& call_ensures(P::Rotation::from_scaled_axis, (twist.w,), rotation)
            &&& call_ensures(<P::Rotation as RotationRepr>::Vector::norm, (twist.w,), theta)
            &&& is_near_identity(theta, near)
            &&& if near {
                t == twist.v
            } else {
                is_exp_translation(twist.w, theta, rotation, twist.v, t)
            }
            &&& call_ensures(P::from_parts, (t, rotation), pose)
        }
}

/// The exponential of `twist`: the rigid motion reached by following
/// `twist` for one unit of time.
pub fn rigid_exp<P: PoseRepr>(twist: Twist<<P::Rotation as RotationRepr>::Vector>) -> (pose: P)
    ensures
        is_rigid_exp(twist, pose),
{
    let w = twist.w;
    let rotation = P::Rotation::from_scaled_axis(w);
    let theta = w.norm();
    let near = near_identity(theta);
    let t = if near {
        twist.v
    } else {
        let v = twist.v;
        let axis = w.unscaled(theta);
        let (along, across) = split_along(v, axis);
        let lever = across.cross(axis).unscaled(theta);
        let t = rotation.rotate(lever).minus(lever).plus(along);
        assert(is_exp_translation(w, theta, rotation, v, t));
        t
    };
    P::from_parts(t, rotation)
}

/// Tangent coordinates at a point of a Lie group: `coordinates` is an
/// element of the Lie algebra, read as a displacement from `tangent_at`.
#[derive(Debug)]
pub struct LieAlgebraPoint<
    CoordinateFrameId: IsCoordinateFrameId,
    LieAlgebra: IsLieAlgebra,
    Repr: Debug + Copy,
    BaseRepr: Debug + Copy,
> {
    pub tangent_at: ManifoldElement<CoordinateFrameId, LieAlgebra::Group, BaseRepr>,
    pub coordinate_system: CoordinateSystem<CoordinateFrameId, LieAlgebra, Repr>,
    pub coordinates: Repr,
}

impl<
    CoordinateFrameId: IsCoordinateFrameId,
    LieAlgebra: IsLieAlgebra,
    Repr: Debug + Copy,
    BaseRepr: Debug + Copy,
> Clone for LieAlgebraPoint<CoordinateFrameId, LieAlgebra, Repr, BaseRepr> {
    fn clone(&self) -> (r: Self)
        ensures
            r == *self,
    {
        *self
    }
}

impl<
    CoordinateFrameId: IsCoordinateFrameId,
    LieAlgebra: IsLieAlgebra,
    Repr: Debug + Copy,
    BaseRepr: Debug + Copy,
> Copy for LieAlgebraPoint<CoordinateFrameId, LieAlgebra, Repr, BaseRepr> {

}

impl<
    CoordinateFrameId: IsCoordinateFrameId,
    LieAlgebra: IsLieAlgebra,
    Repr: Debug + Copy,
    BaseRepr: Debug + Copy,
> LieAlgebraPoint<CoordinateFrameId, LieAlgebra, Repr, BaseRepr> {
    /// The tangent space shares frame and instant with the point it is
    /// attached to.
    pub open spec fn well_formed(self) -> bool {
        self.coordinate_system.frame == self.tangent_at.coordinate_system.frame
    }

    /// The tangent vector `coordinates` at `tangent_at`.
    pub fn new(
        tangent_at: ManifoldElement<CoordinateFrameId, LieAlgebra::Group, BaseRepr>,
        coordinate_system: CoordinateSystem<CoordinateFrameId, LieAlgebra, Repr>,
        coordinates: Repr,
    ) -> (r: Self)
        requires
            coordinate_system.frame == tangent_at.coordinate_system.frame,
        ensures
            r.tangent_at == tangent_at,
            r.coordinate_system == coordinate_system,
            r.coordinates == coordinates,
            r.well_formed(),
    {
        Self { tangent_at, coordinate_system, coordinates }
    }
}

/// Tangent coordinates that can be scaled.
pub trait IsLieAlgebraPoint<
    T,
    CoordinateFrameId: IsCoordinateFrameId,
    LieAlgebra: IsLieAlgebra,
    AlgebraRepr: Debug + Copy,
    BaseRepr: Debug + Copy,
>: Sized {
    /// The coordinate system of the point that `self` is tangent at.
    spec fn base_coordinate_system(self) -> CoordinateSystem<
        CoordinateFrameId,
        LieAlgebra::Group,
        BaseRepr,
    >;

    /// `scaled` is a result of multiplying `self` by `scalar`.
    spec fn is_scaled(self, scalar: T, scaled: Self) -> bool;

    /// `self`, multiplied by `scalar` in its tangent space.
    fn scale_by(self, scalar: T) -> (scaled: Self)
        ensures
            scaled.base_coordinate_system() == self.base_coordinate_system(),
            self.is_scaled(scalar, scaled),
    ;
}

/// An anchored value of a Lie group: one that has a logarithm relative to
/// another, and that can be moved along a geodesic towards another.
pub trait IsLieGroupPoint<
    T,
    CoordinateFrameId: IsCoordinateFrameId,
    LieGroup: IsLieGroup,
    BaseRepr: Debug + Copy,
    AlgebraRepr: Debug + Copy,
>: IsGroupElement<CoordinateFrameId, LieGroup, BaseRepr> where
    LieGroup::Algebra: IsLieAlgebra<Group = LieGroup>,
    LieAlgebraPoint<CoordinateFrameId, LieGroup::Algebra, AlgebraRepr, BaseRepr>: IsLieAlgebraPoint<
        T,
        CoordinateFrameId,
        LieGroup::Algebra,
        AlgebraRepr,
        BaseRepr,
    >,
 {
    /// `log` is a result of taking the logarithm of `other` at `self`.
    spec fn is_log(
        self,
        other: Self,
        log: LieAlgebraPoint<CoordinateFrameId, LieGroup::Algebra, AlgebraRepr, BaseRepr>,
    ) -> bool;

    /// `point` is a result of following `tangent` from the point it is
    /// attached to.
    spec fn is_exp(
        tangent: LieAlgebraPoint<CoordinateFrameId, LieGroup::Algebra, AlgebraRepr, BaseRepr>,
        point: Self,
    ) -> bool;

    /// The logarithm of `other` at `self`: the tangent vector at `self` that
    /// points to `other`.
    fn log_of(self, other: Self) -> (log: LieAlgebraPoint<
        CoordinateFrameId,
        LieGroup::Algebra,
        AlgebraRepr,
        BaseRepr,
    >)
        requires
            self.coordinate_system_spec() == other.coordinate_system_spec(),
        ensures
            log.base_coordinate_system() == self.coordinate_system_spec(),
            self.is_log(other, log),
    ;

    /// The exponential of `tangent`: the point reached by following
    /// `tangent` from the point it is attached to.
    fn exp_of(
        tangent: LieAlgebraPoint<CoordinateFrameId, LieGroup::Algebra, AlgebraRepr, BaseRepr>,
    ) -> (point: Self)
        ensures
            point.coordinate_system_spec() == tangent.base_coordinate_system(),
            Self::is_exp(tangent, point),
    ;

    /// The point at the fraction `alpha` of the geodesic from `self` to
    /// `other`.
    fn lerp_to(self, other: Self, alpha: T) -> (r: Self)
        requires
            self.coordinate_system_spec() == other.coordinate_system_spec(),
        ensures
            r.coordinate_system_spec() == self.coordinate_system_spec(),
            exists|
                log: LieAlgebraPoint<CoordinateFrameId, LieGroup::Algebra, AlgebraRepr, BaseRepr>,
                scaled: LieAlgebraPoint<
                    CoordinateFrameId,
                    LieGroup::Algebra,
                    AlgebraRepr,
                    BaseRepr,
                >,
            |
                #![trigger log.is_scaled(alpha, scaled)]
                {
                    &&& self.is_log(other, log)
                    &&& log.is_scaled(alpha, scaled)
                    &&& Self::is_exp(scaled, r)
                },
    {
        let other_as_lie_algebra_point = self.log_of(other);
        let other_scaled = other_as_lie_algebra_point.scale_by(alpha);
        Self::exp_of(other_scaled)
    }
}

impl<
    CoordinateFrameId: IsCoordinateFrameId,
    V: VectorRepr,
    BaseRepr: Debug + Copy,
> IsLieAlgebraPoint<V::Scalar, CoordinateFrameId, so3, V, BaseRepr> for LieAlgebraPoint<
    CoordinateFrameId,
    so3,
    V,
    BaseRepr,
> {
    open spec fn base_coordinate_system(self) -> CoordinateSystem<
        CoordinateFrameId,
        SO3,
        BaseRepr,
    > {
        self.tangent_at.coordinate_system
    }

    open spec fn is_scaled(self, scalar: V::Scalar, scaled: Self) -> bool {
        &&& scaled.tangent_at == self.tangent_at
        &&& scaled.coordinate_system == self.coordinate_system
        &&& call_ensures(V::scaled, (self.coordinates, scalar), scaled.coordinates)
    }

    fn scale_by(self, scalar: V::Scalar) -> (scaled: Self) {
        LieAlgebraPoint {
            tangent_at: self.tangent_at,
            coordinate_system: self.coordinate_system,
            coordinates: self.coordinates.scaled(scalar),
        }
    }
}

impl<
    CoordinateFrameId: IsCoordinateFrameId,
    V: VectorRepr,
    BaseRepr: Debug + Copy,
> IsLieAlgebraPoint<V::Scalar, CoordinateFrameId, se3, Twist<V>, BaseRepr> for LieAlgebraPoint<
    CoordinateFrameId,
    se3,
    Twist<V>,
    BaseRepr,
> {
    open spec fn base_coordinate_system(self) -> CoordinateSystem<
        CoordinateFrameId,
        SE3,
        BaseRepr,
    > {
        self.tangent_at.coordinate_system
    }

    open spec fn is_scaled(self, scalar: V::Scalar, scaled: Self) -> bool {
        &&& scaled.tangent_at == self.tangent_at
        &&& scaled.coordinate_system == self.coordinate_system
        &&& call_ensures(V::scaled, (self.coordinates.w, scalar), scaled.coordinates.w)
        &&& call_ensures(V::scaled, (self.coordinates.v, scalar), scaled.coordinates.v)
    }

    fn scale_by(self, scalar: V::Scalar) -> (scaled: Self) {
        LieAlgebraPoint {
            tangent_at: self.tangent_at,
            coordinate_system: self.coordinate_system,
            coordinates: Twist {
                w: self.coordinates.w.scaled(scalar),
                v: self.coordinates.v.scaled(scalar),
            },
        }
    }
}

impl<CoordinateFrameId: IsCoordinateFrameId, R: RotationRepr> IsLieGroupPoint<
    <R::Vector as VectorRepr>::Scalar,
    CoordinateFrameId,
    SO3,
    R,
    R::Vector,
> for ManifoldElement<CoordinateFrameId, SO3, R> {
    /// The logarithm is anchored at `self`, in the frame and at the instant
    /// of `self`; its coordinates are the rotation vector of
    /// `self⁻¹ · other`.
    open spec fn is_log(
        self,
        other: Self,
        log: LieAlgebraPoint<CoordinateFrameId, so3, R::Vector, R>,
    ) -> bool {
        &&& log.tangent_at == self
        &&& log.well_formed()
        &&& exists|inverse: Self, relative: Self|
            {
                &&& self.is_inverse(inverse)
                &&& #[trigger] inverse.is_product(other, relative)
                &&& call_ensures(R::scaled_axis, (relative.coordinates,), log.coordinates)
            }
    }

    /// The exponential is the anchor of `tangent`, composed with the
    /// rotation by the coordinates of `tangent`.
    open spec fn is_exp(
        tangent: LieAlgebraPoint<CoordinateFrameId, so3, R::Vector, R>,
        point: Self,
    ) -> bool {
        exists|step: Self|
            {
                &&& step.coordinate_system == tangent.tangent_at.coordinate_system
                &&& call_ensures(R::from_scaled_axis, (tangent.coordinates,), step.coordinates)
                &&& #[trigger] tangent.tangent_at.is_product(step, point)
            }
    }

    fn log_of(self, other: Self) -> (log: LieAlgebraPoint<CoordinateFrameId, so3, R::Vector, R>) {
        let relative = self.invert().group_mul(other);
        let coordinate_system = CoordinateSystem::at_time(self.coordinate_system().frame.time);
        proof {
            coordinate_system.frame.lemma_equal_iff_same_time(self.coordinate_system.frame);
        }
        LieAlgebraPoint::new(self, coordinate_system, relative.coordinates.scaled_axis())
    }

    fn exp_of(tangent: LieAlgebraPoint<CoordinateFrameId, so3, R::Vector, R>) -> (point: Self) {
        let base = tangent.tangent_at;
        let step = ManifoldElement::new(
            base.coordinate_system(),
            R::from_scaled_axis(tangent.coordinates),
        );
        base.group_mul(step)
    }
}

impl<CoordinateFrameId: IsCoordinateFrameId, P: PoseRepr> IsLieGroupPoint<
    <<P::Rotation as RotationRepr>::Vector as VectorRepr>::Scalar,
    CoordinateFrameId,
    SE3,
    P,
    Twist<<P::Rotation as RotationRepr>::Vector>,
> for ManifoldElement<CoordinateFrameId, SE3, P> {
    /// The logarithm is anchored at `self`, in the frame and at the instant
    /// of `self`; its coordinates are the twist that [`is_rigid_log`] gives
    /// for `self⁻¹ · other`.
    open spec fn is_log(
        self,
        other: Self,
        log: LieAlgebraPoint<
            CoordinateFrameId,
            se3,
            Twist<<P::Rotation as RotationRepr>::Vector>,
            P,
        >,
    ) -> bool {
        &&& log.tangent_at == self
        &&& log.well_formed()
        &&& exists|inverse: Self, relative: Self|
            {
                &&& self.is_inverse(inverse)
                &&& #[trigger] inverse.is_product(other, relative)
                &&& is_rigid_log(relative.coordinates, log.coordinates)
            }
    }

    /// The exponential is the anchor of `tangent`, composed with the rigid
    /// motion that [`is_rigid_exp`] gives for the coordinates of `tangent`.
    open spec fn is_exp(
        tangent: LieAlgebraPoint<
            CoordinateFrameId,
            se3,
            Twist<<P::Rotation as RotationRepr>::Vector>,
            P,
        >,
        point: Self,
    ) -> bool {
        exists|step: Self|
            {
                &&& step.coordinate_system == tangent.tangent_at.coordinate_system
                &&& is_rigid_exp(tangent.coordinates, step.coordinates)
                &&& #[trigger] tangent.tangent_at.is_product(step, point)
            }
    }

    fn log_of(self, other: Self) -> (log: LieAlgebraPoint<
        CoordinateFrameId,
        se3,
        Twist<<P::Rotation as RotationRepr>::Vector>,
        P,
    >) {
        let relative = self.invert().group_mul(other);
        let coordinate_system = CoordinateSystem::at_time(self.coordinate_system().frame.time);
        proof {
            coordinate_system.frame.lemma_equal_iff_same_time(self.coordinate_system.frame);
        }
        LieAlgebraPoint::new(self, coordinate_system, rigid_log(relative.coordinates))
    }

    fn exp_of(
        tangent: LieAlgebraPoint<
            CoordinateFrameId,
            se3,
            Twist<<P::Rotation as RotationRepr>::Vector>,
            P,
        >,
    ) -> (point: Self) {
        let base = tangent.tangent_at;
        let step = ManifoldElement::new(base.coordinate_system(), rigid_exp(tangent.coordinates));
        base.group_mul(step)
    }
}

impl<CoordinateFrameId: IsCoordinateFrameId, R: RotationRepr> From<
    LieAlgebraPoint<CoordinateFrameId, so3, R::Vector, R>,
> for ManifoldElement<CoordinateFrameId, SO3, R> {
    /// The exponential of `algebra_point`.
    fn from(algebra_point: LieAlgebraPoint<CoordinateFrameId, so3, R::Vector, R>) -> (point: Self)
        ensures
            point.coordinate_system == algebra_point.tangent_at.coordinate_system,
            Self::is_exp(algebra_point, point),
    {
        Self::exp_of(algebra_point)
    }
}

impl<CoordinateFrameId: IsCoordinateFrameId, R: RotationRepr> FromSpecImpl<
    LieAlgebraPoint<CoordinateFrameId, so3, R::Vector, R>,
> for ManifoldElement<CoordinateFrameId, SO3, R> {
    /// The conversion is stated as a relation, by the `ensures` of `from`:
    /// nothing is claimed of it as a function.
    open spec fn obeys_from_spec() -> bool {
        false
    }

    open spec fn from_spec(
        algebra_point: LieAlgebraPoint<CoordinateFrameId, so3, R::Vector, R>,
    ) -> Self {
        choose|point: Self| Self::is_exp(algebra_point, point)
    }
}

impl<CoordinateFrameId: IsCoordinateFrameId, P: PoseRepr> From<
    LieAlgebraPoint<CoordinateFrameId, se3, Twist<<P::Rotation as RotationRepr>::Vector>, P>,
> for ManifoldElement<CoordinateFrameId, SE3, P> {
    /// The exponential of `algebra_point`.
    fn from(
        algebra_point: LieAlgebraPoint<
            CoordinateFrameId,
            se3,
            Twist<<P::Rotation as RotationRepr>::Vector>,
            P,
        >,
    ) -> (point: Self)
        ensures
            point.coordinate_system == algebra_point.tangent_at.coordinate_system,
            Self::is_exp(algebra_point, point),
    {
        Self::exp_of(algebra_point)
    }
}

impl<CoordinateFrameId: IsCoordinateFrameId, P: PoseRepr> FromSpecImpl<
    LieAlgebraPoint<CoordinateFrameId, se3, Twist<<P::Rotation as RotationRepr>::Vector>, P>,
> for ManifoldElement<CoordinateFrameId, SE3, P> {
    /// The conversion is stated as a relation, by the `ensures` of `from`:
    /// nothing is claimed of it as a function.
    open spec fn obeys_from_spec() -> bool {
        false
    }

    open spec fn from_spec(
        algebra_point: LieAlgebraPoint<
            CoordinateFrameId,
            se3,
            Twist<<P::Rotation as RotationRepr>::Vector>,
            P,
        >,
    ) -> Self {
        choose|point: Self| Self::is_exp(algebra_point, point)
    }
}

} // verus!
