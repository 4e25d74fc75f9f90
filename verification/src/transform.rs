//! Transforms: directed maps from a source coordinate system to a
//! destination coordinate system.
//!
//! A transform is applied only to a point of its source coordinate system,
//! and two transforms are composed only when the source of the first is the
//! destination of the second. The frame tags are matched by the compiler;
//! the timestamps are part of each function's precondition, and the `try_`
//! variants test them at run time.

use vstd::prelude::*;
use core::fmt::Debug;
use crate::coordinate_system::{
    CoordinateSystem, IsCoordinateFrameId, IsManifoldElement, ManifoldElement, Point,
};
use crate::group::IsGroupElement;
use crate::manifold::{Differentiable, IsGroup, IsManifold, R2, SE3};
use crate::numeric::{
    GroupRepr, ImageRepr, IntrinsicsRepr, PoseRepr, ScalarOf, ScalarRepr, VectorOf, VectorRepr,
};

verus! {

/// Two coordinate systems that had to be the same differ in their instant.
#[derive(Debug, Clone, Copy, PartialEq, Eq, Structural)]
pub struct FrameMismatch {
    /// The timestamp that was called for.
    pub expected: u64,
    /// The timestamp that was given.
    pub found: u64,
}

/// A map from the points of one coordinate system to the points of another.
pub trait IsTransform<
    DstId: IsCoordinateFrameId,
    DstManifold: IsManifold + Differentiable,
    DstRepr: Debug + Copy,
    SrcId: IsCoordinateFrameId,
    SrcManifold: IsManifold + Differentiable,
    SrcRepr: Debug + Copy,
>: Debug + Copy {
    /// The coordinate system of a point after the transform.
    spec fn dst_spec(&self) -> CoordinateSystem<DstId, DstManifold, DstRepr>;

    /// The coordinate system of a point before the transform.
    spec fn src_spec(&self) -> CoordinateSystem<SrcId, SrcManifold, SrcRepr>;

    /// `image` is a result of applying `self` to `point`.
    spec fn maps(
        &self,
        point: Point<SrcId, SrcManifold, SrcRepr>,
        image: Point<DstId, DstManifold, DstRepr>,
    ) -> bool;

    fn dst(&self) -> (r: CoordinateSystem<DstId, DstManifold, DstRepr>)
        ensures
            r == self.dst_spec(),
    ;

    fn src(&self) -> (r: CoordinateSystem<SrcId, SrcManifold, SrcRepr>)
        ensures
            r == self.src_spec(),
    ;

    /// Carries `point` from the source to the destination coordinate
    /// system.
    fn transform(&self, point: Point<SrcId, SrcManifold, SrcRepr>) -> (image: Point<
        DstId,
        DstManifold,
        DstRepr,
    >)
        requires
            self.src_spec() == point.coordinate_system,
        ensures
            image.coordinate_system == self.dst_spec(),
            self.maps(point, image),
    {
        self.transform_inner(point)
    }

    /// What `transform` does once the coordinate systems are known to
    /// match. Implement this; call `transform` or `try_transform`.
    fn transform_inner(&self, point: Point<SrcId, SrcManifold, SrcRepr>) -> (image: Point<
        DstId,
        DstManifold,
        DstRepr,
    >)
        requires
            self.src_spec() == point.coordinate_system,
        ensures
            image.coordinate_system == self.dst_spec(),
            self.maps(point, image),
    ;

    /// Carries `point` from the source to the destination coordinate system
    /// if it is a point of the source coordinate system, and reports the two
    /// timestamps if it is not.
    fn try_transform(&self, point: Point<SrcId, SrcManifold, SrcRepr>) -> (r: Result<
        Point<DstId, DstManifold, DstRepr>,
        FrameMismatch,
    >)
        ensures
            r is Ok <==> self.src_spec().frame.time == point.coordinate_system.frame.time,
            match r {
                Ok(image) => {
                    &&& self.src_spec() == point.coordinate_system
                    &&& image.coordinate_system == self.dst_spec()
                    &&& self.maps(point, image)
                },
                Err(mismatch) => {
                    &&& self.src_spec() != point.coordinate_system
                    &&& mismatch.expected == self.src_spec().frame.time
                    &&& mismatch.found == point.coordinate_system.frame.time
                },
            },
    {
        let src = self.src();
        proof {
            src.lemma_equal_iff_same_time(point.coordinate_system);
        }
        if src.frame.time == point.coordinate_system.frame.time {
            Ok(self.transform_inner(point))
        } else {
            Err(
                FrameMismatch {
                    expected: src.frame.time,
                    found: point.coordinate_system.frame.time,
                },
            )
        }
    }
}

/// A transform between two coordinate systems of one group manifold. Its
/// representation is the origin of the source, expressed as a point of the
/// destination: applying the transform is composing with it.
#[derive(Debug)]
pub struct Transform<
    DstId: IsCoordinateFrameId,
    SrcId: IsCoordinateFrameId,
    Group: IsGroup + IsManifold + Differentiable,
    Repr: GroupRepr<Group>,
> {
    dst: CoordinateSystem<DstId, Group, Repr>,
    src: CoordinateSystem<SrcId, Group, Repr>,
    transform: Repr,
}

/// A transform between two coordinate systems of rigid poses.
pub type SE3Transform<DstId, SrcId, Repr> = Transform<DstId, SrcId, SE3, Repr>;

impl<
    DstId: IsCoordinateFrameId,
    SrcId: IsCoordinateFrameId,
    Group: IsGroup + IsManifold + Differentiable,
    Repr: GroupRepr<Group>,
> Clone for Transform<DstId, SrcId, Group, Repr> {
    fn clone(&self) -> (r: Self)
        ensures
            r == *self,
    {
        *self
    }
}

impl<
    DstId: IsCoordinateFrameId,
    SrcId: IsCoordinateFrameId,
    Group: IsGroup + IsManifold + Differentiable,
    Repr: GroupRepr<Group>,
> Copy for Transform<DstId, SrcId, Group, Repr> {

}

impl<
    DstId: IsCoordinateFrameId,
    SrcId: IsCoordinateFrameId,
    Group: IsGroup + IsManifold + Differentiable,
    Repr: GroupRepr<Group>,
> IsTransform<DstId, Group, Repr, SrcId, Group, Repr> for Transform<DstId, SrcId, Group, Repr> {
    closed spec fn dst_spec(&self) -> CoordinateSystem<DstId, Group, Repr> {
        self.dst
    }

    closed spec fn src_spec(&self) -> CoordinateSystem<SrcId, Group, Repr> {
        self.src
    }

    /// The image is anchored to the destination, and its coordinates are
    /// the representation of `self` composed with those of `point`.
    open spec fn maps(
        &self,
        point: Point<SrcId, Group, Repr>,
        image: Point<DstId, Group, Repr>,
    ) -> bool {
        &&& image.coordinate_system == self.dst_spec()
        &&& call_ensures(
            Repr::compose,
            (self.representation(), point.coordinates),
            image.coordinates,
        )
    }

    fn dst(&self) -> (r: CoordinateSystem<DstId, Group, Repr>) {
        self.dst
    }

    fn src(&self) -> (r: CoordinateSystem<SrcId, Group, Repr>) {
        self.src
    }

    fn transform_inner(&self, point: Point<SrcId, Group, Repr>) -> (image: Point<
        DstId,
        Group,
        Repr,
    >) {
        let src_in_dst_as_point = ManifoldElement::new(self.dst, self.transform);
        let point_in_dst = ManifoldElement::new(self.dst, point.coordinates);
        src_in_dst_as_point.group_mul(point_in_dst)
    }
}

impl<
    DstId: IsCoordinateFrameId,
    SrcId: IsCoordinateFrameId,
    Group: IsGroup + IsManifold + Differentiable,
    Repr: GroupRepr<Group>,
> Transform<DstId, SrcId, Group, Repr> {
    /// The representation of `self`: the origin of the source, as
    /// coordinates in the destination.
    pub closed spec fn representation(&self) -> Repr {
        self.transform
    }

    /// `inverse` is a result of inverting `self`: source and destination
    /// have changed places, and the representation is inverted.
    pub open spec fn inverts_to(&self, inverse: Transform<SrcId, DstId, Group, Repr>) -> bool {
        &&& inverse.dst_spec() == self.src_spec()
        &&& inverse.src_spec() == self.dst_spec()
        &&& call_ensures(Repr::inverse, (self.representation(),), inverse.representation())
    }

    /// `composed` is a result of composing `self` with `rhs`: it leads from
    /// the source of `rhs` to the destination of `self`, and its
    /// representation is that of `self` composed with that of `rhs`.
    pub open spec fn composes_to<RhsSrcId: IsCoordinateFrameId>(
        &self,
        rhs: Transform<SrcId, RhsSrcId, Group, Repr>,
        composed: Transform<DstId, RhsSrcId, Group, Repr>,
    ) -> bool {
        &&& composed.dst_spec() == self.dst_spec()
        &&& composed.src_spec() == rhs.src_spec()
        &&& call_ensures(
            Repr::compose,
            (self.representation(), rhs.representation()),
            composed.representation(),
        )
    }

    /// A transform is its destination, its source and its representation,
    /// and nothing else.
    pub proof fn lemma_equal_by_parts(self, other: Self)
        requires
            self.dst_spec() == other.dst_spec(),
            self.src_spec() == other.src_spec(),
            self.representation() == other.representation(),
        ensures
            self == other,
    {
    }

    /// The transform from `src` to `dst` with representation `transform`.
    pub fn new(
        dst: CoordinateSystem<DstId, Group, Repr>,
        src: CoordinateSystem<SrcId, Group, Repr>,
        transform: Repr,
    ) -> (r: Self)
        ensures
            r.dst_spec() == dst,
            r.src_spec() == src,
            r.representation() == transform,
    {
        Self { dst, src, transform }
    }

    /// The transform back from the destination to the source: source and
    /// destination change places, and the representation is inverted.
    pub fn invert(&self) -> (r: Transform<SrcId, DstId, Group, Repr>)
        ensures
            self.inverts_to(r),
    {
        let src_in_dst_as_point = ManifoldElement::new(self.dst, self.transform);
        Transform::new(self.src, self.dst, src_in_dst_as_point.invert().coordinates)
    }

    /// The transform that applies `rhs` and then `self`: it leads from the
    /// source of `rhs` to the destination of `self`.
    pub fn compose_with<RhsSrcId: IsCoordinateFrameId>(
        &self,
        rhs: Transform<SrcId, RhsSrcId, Group, Repr>,
    ) -> (r: Transform<DstId, RhsSrcId, Group, Repr>)
        requires
            self.src_spec() == rhs.dst_spec(),
        ensures
            self.composes_to(rhs, r),
    {
        let b_in_a_as_pt = ManifoldElement::new(self.dst, self.transform);
        let c_in_b_as_pt = ManifoldElement::new(self.dst, rhs.transform);
        let c_in_a_as_pt = b_in_a_as_pt.group_mul(c_in_b_as_pt);
        Transform::new(self.dst, rhs.src, c_in_a_as_pt.coordinates)
    }

    /// The transform that applies `rhs` and then `self`, if the source of
    /// `self` is the destination of `rhs`; the two timestamps if it is not.
    pub fn try_compose_with<RhsSrcId: IsCoordinateFrameId>(
        &self,
        rhs: Transform<SrcId, RhsSrcId, Group, Repr>,
    ) -> (r: Result<Transform<DstId, RhsSrcId, Group, Repr>, FrameMismatch>)
        ensures
            r is Ok <==> self.src_spec().frame.time == rhs.dst_spec().frame.time,
            match r {
                Ok(composed) => {
                    &&& self.src_spec() == rhs.dst_spec()
                    &&& self.composes_to(rhs, composed)
                },
                Err(mismatch) => {
                    &&& self.src_spec() != rhs.dst_spec()
                    &&& mismatch.expected == self.src_spec().frame.time
                    &&& mismatch.found == rhs.dst_spec().frame.time
                },
            },
    {
        proof {
            self.src.lemma_equal_iff_same_time(rhs.dst);
        }
        if self.src == rhs.dst {
            Ok(self.compose_with(rhs))
        } else {
            Err(FrameMismatch { expected: self.src.frame.time, found: rhs.dst.frame.time })
        }
    }
}

impl<
    Id: IsCoordinateFrameId,
    Group: IsGroup + IsManifold + Differentiable,
    Repr: GroupRepr<Group>,
> Transform<Id, Id, Group, Repr> {
    /// `self` leads from `coordinate_system` to itself, and its
    /// representation is a neutral element.
    pub open spec fn is_identity_at(
        &self,
        coordinate_system: CoordinateSystem<Id, Group, Repr>,
    ) -> bool {
        &&& self.dst_spec() == coordinate_system
        &&& self.src_spec() == coordinate_system
        &&& call_ensures(Repr::identity, (), self.representation())
    }

    /// The transform from `coordinate_system` to itself that leaves every
    /// point where it is.
    pub fn identity_at(coordinate_system: CoordinateSystem<Id, Group, Repr>) -> (r: Self)
        ensures
            r.is_identity_at(coordinate_system),
    {
        let identity_point = ManifoldElement::identity_at(coordinate_system);
        Transform::new(coordinate_system, coordinate_system, identity_point.coordinates)
    }
}

/// A transform followed by its inverse leads back to where the point came
/// from: the inverse accepts what the transform produced, and what it
/// returns is anchored to the coordinate system of the point. This holds of
/// every representation.
pub proof fn lemma_round_trip_returns_to_source<
    DstId: IsCoordinateFrameId,
    SrcId: IsCoordinateFrameId,
    Group: IsGroup + IsManifold + Differentiable,
    Repr: GroupRepr<Group>,
>(
    t: Transform<DstId, SrcId, Group, Repr>,
    inverse: Transform<SrcId, DstId, Group, Repr>,
    point: Point<SrcId, Group, Repr>,
    image: Point<DstId, Group, Repr>,
    back: Point<SrcId, Group, Repr>,
)
    requires
        t.src_spec() == point.coordinate_system,
        t.maps(point, image),
        t.inverts_to(inverse),
        inverse.maps(image, back),
    ensures
        inverse.src_spec() == image.coordinate_system,
        back.coordinate_system == point.coordinate_system,
{
}

/// A transform followed by its inverse gives back the very point it was
/// applied to, where the representation is exact.
pub proof fn lemma_round_trip_is_identity<
    DstId: IsCoordinateFrameId,
    SrcId: IsCoordinateFrameId,
    Group: IsGroup + IsManifold + Differentiable,
    Repr: GroupRepr<Group>,
>(
    model: crate::group::GroupModel<Repr>,
    t: Transform<DstId, SrcId, Group, Repr>,
    inverse: Transform<SrcId, DstId, Group, Repr>,
    point: Point<SrcId, Group, Repr>,
    image: Point<DstId, Group, Repr>,
    back: Point<SrcId, Group, Repr>,
)
    requires
        model.is_group(),
        crate::group::computes_in::<Group, Repr>(model),
        t.src_spec() == point.coordinate_system,
        t.maps(point, image),
        t.inverts_to(inverse),
        inverse.maps(image, back),
    ensures
        back == point,
{
    let a = t.representation();
    let b = (model.inverse)(a);
    let p = point.coordinates;
    // b·(a·p) = (b·a)·p = e·p = p
    model.lemma_left_inverse(a);
    model.lemma_left_identity(p);
    assert(model.associates(b, a, p));
}

/// Composing the identity transform at the destination of `a` with `a`
/// gives `a` again, where the representation is exact.
pub proof fn lemma_identity_composes_away<
    DstId: IsCoordinateFrameId,
    SrcId: IsCoordinateFrameId,
    Group: IsGroup + IsManifold + Differentiable,
    Repr: GroupRepr<Group>,
>(
    model: crate::group::GroupModel<Repr>,
    identity: Transform<DstId, DstId, Group, Repr>,
    a: Transform<DstId, SrcId, Group, Repr>,
    composed: Transform<DstId, SrcId, Group, Repr>,
)
    requires
        model.is_group(),
        crate::group::computes_in::<Group, Repr>(model),
        identity.is_identity_at(a.dst_spec()),
        identity.composes_to(a, composed),
    ensures
        identity.src_spec() == a.dst_spec(),
        composed == a,
{
    model.lemma_left_identity(a.representation());
    composed.lemma_equal_by_parts(a);
}

/// The inverse of a transform can always be composed with the transform,
/// and the result leads from the source of the transform to itself. This
/// holds of every representation.
pub proof fn lemma_inverse_composes_on_source<
    DstId: IsCoordinateFrameId,
    SrcId: IsCoordinateFrameId,
    Group: IsGroup + IsManifold + Differentiable,
    Repr: GroupRepr<Group>,
>(
    a: Transform<DstId, SrcId, Group, Repr>,
    inverse: Transform<SrcId, DstId, Group, Repr>,
    composed: Transform<SrcId, SrcId, Group, Repr>,
)
    requires
        a.inverts_to(inverse),
        inverse.composes_to(a, composed),
    ensures
        inverse.src_spec() == a.dst_spec(),
        composed.dst_spec() == a.src_spec(),
        composed.src_spec() == a.src_spec(),
{
}

/// The inverse of a transform, composed with the transform, leads from the
/// source of the transform to itself, and its representation is the neutral
/// element, where the representation is exact.
pub proof fn lemma_inverse_composes_to_identity<
    DstId: IsCoordinateFrameId,
    SrcId: IsCoordinateFrameId,
    Group: IsGroup + IsManifold + Differentiable,
    Repr: GroupRepr<Group>,
>(
    model: crate::group::GroupModel<Repr>,
    a: Transform<DstId, SrcId, Group, Repr>,
    inverse: Transform<SrcId, DstId, Group, Repr>,
    composed: Transform<SrcId, SrcId, Group, Repr>,
)
    requires
        model.is_group(),
        crate::group::computes_in::<Group, Repr>(model),
        a.inverts_to(inverse),
        inverse.composes_to(a, composed),
    ensures
        composed.dst_spec() == a.src_spec(),
        composed.src_spec() == a.src_spec(),
        composed.representation() == model.neutral,
{
    model.lemma_left_inverse(a.representation());
}

/// A composed transform accepts the points that its second part accepts,
/// what the second part makes of them is accepted by the first, and both
/// ways end in the destination of the first. This holds of every
/// representation.
pub proof fn lemma_composition_routes_through_the_middle<
    DstId: IsCoordinateFrameId,
    MidId: IsCoordinateFrameId,
    SrcId: IsCoordinateFrameId,
    Group: IsGroup + IsManifold + Differentiable,
    Repr: GroupRepr<Group>,
>(
    a: Transform<DstId, MidId, Group, Repr>,
    b: Transform<MidId, SrcId, Group, Repr>,
    composed: Transform<DstId, SrcId, Group, Repr>,
    point: Point<SrcId, Group, Repr>,
    midway: Point<MidId, Group, Repr>,
    routed: Point<DstId, Group, Repr>,
    direct: Point<DstId, Group, Repr>,
)
    requires
        a.src_spec() == b.dst_spec(),
        a.composes_to(b, composed),
        b.src_spec() == point.coordinate_system,
        b.maps(point, midway),
        a.maps(midway, routed),
        composed.maps(point, direct),
    ensures
        composed.src_spec() == point.coordinate_system,
        a.src_spec() == midway.coordinate_system,
        direct.coordinate_system == routed.coordinate_system,
{
}

/// Applying a composed transform is applying its second part and then its
/// first, where the representation is exact.
pub proof fn lemma_composition_applies_in_sequence<
    DstId: IsCoordinateFrameId,
    MidId: IsCoordinateFrameId,
    SrcId: IsCoordinateFrameId,
    Group: IsGroup + IsManifold + Differentiable,
    Repr: GroupRepr<Group>,
>(
    model: crate::group::GroupModel<Repr>,
    a: Transform<DstId, MidId, Group, Repr>,
    b: Transform<MidId, SrcId, Group, Repr>,
    composed: Transform<DstId, SrcId, Group, Repr>,
    point: Point<SrcId, Group, Repr>,
    midway: Point<MidId, Group, Repr>,
    routed: Point<DstId, Group, Repr>,
    direct: Point<DstId, Group, Repr>,
)
    requires
        model.is_group(),
        crate::group::computes_in::<Group, Repr>(model),
        a.src_spec() == b.dst_spec(),
        a.composes_to(b, composed),
        b.src_spec() == point.coordinate_system,
        b.maps(point, midway),
        a.maps(midway, routed),
        composed.maps(point, direct),
    ensures
        direct == routed,
{
    assert(model.associates(a.representation(), b.representation(), point.coordinates));
}

/// A projective transform was asked for with a matrix whose last row is not
/// `[0, 0, 1]`.
#[derive(Debug, Clone, Copy, PartialEq, Eq, Structural)]
pub struct MalformedProjection {}

/// `canonical` is the answer to whether the last row of `k` is `[0, 0, 1]`.
pub open spec fn is_canonical_last_row<K: IntrinsicsRepr>(k: K, canonical: bool) -> bool {
    exists|
        zero: ScalarOf<K::Pose>,
        one: ScalarOf<K::Pose>,
        k20: ScalarOf<K::Pose>,
        k21: ScalarOf<K::Pose>,
        k22: ScalarOf<K::Pose>,
        first: bool,
        second: bool,
        third: bool,
    |
        #![trigger
            call_ensures(ScalarOf::<K::Pose>::equals, (k20, zero), first),
            call_ensures(ScalarOf::<K::Pose>::equals, (k21, zero), second),
            call_ensures(ScalarOf::<K::Pose>::equals, (k22, one), third),
        ]
        {
            &&& call_ensures(ScalarOf::<K::Pose>::from_ratio, (0i32, 1u32), zero)
            &&& call_ensures(ScalarOf::<K::Pose>::from_ratio, (1i32, 1u32), one)
            &&& call_ensures(K::entry, (k, 2usize, 0usize), k20)
            &&& call_ensures(K::entry, (k, 2usize, 1usize), k21)
            &&& call_ensures(K::entry, (k, 2usize, 2usize), k22)
            &&& call_ensures(ScalarOf::<K::Pose>::equals, (k20, zero), first)
            &&& call_ensures(ScalarOf::<K::Pose>::equals, (k21, zero), second)
            &&& call_ensures(ScalarOf::<K::Pose>::equals, (k22, one), third)
            &&& canonical == (first && second && third)
        }
}

/// Whether the last row of `k` is `[0, 0, 1]`, as the matrix of a
/// projective transform must have it.
pub fn has_canonical_last_row<K: IntrinsicsRepr>(k: K) -> (canonical: bool)
    ensures
        is_canonical_last_row(k, canonical),
{
    let zero = ScalarOf::<K::Pose>::from_ratio(0, 1);
    let one = ScalarOf::<K::Pose>::from_ratio(1, 1);
    let first = k.entry(2, 0).equals(zero);
    let second = k.entry(2, 1).equals(zero);
    let third = k.entry(2, 2).equals(one);
    first && second && third
}

/// `image` is the projection by `k` of the position of `pose`, and `behind`
/// is the answer to whether that position has no positive depth. With
/// `u = k · t`, where `t` is the translation of `pose`, the image is
/// `(u[0] / u[2], u[1] / u[2])`, and `behind` is `u[2] <= 0`.
pub open spec fn is_projection<K: IntrinsicsRepr>(
    k: K,
    pose: K::Pose,
    image: K::Image,
    behind: bool,
) -> bool {
    exists|
        t: VectorOf<K::Pose>,
        u: VectorOf<K::Pose>,
        u0: ScalarOf<K::Pose>,
        u1: ScalarOf<K::Pose>,
        u2: ScalarOf<K::Pose>,
        zero: ScalarOf<K::Pose>,
        x: ScalarOf<K::Pose>,
        y: ScalarOf<K::Pose>,
    |
        #![trigger
            call_ensures(K::apply, (k, t), u),
            call_ensures(ScalarOf::<K::Pose>::at_most, (u2, zero), behind),
            call_ensures(ScalarOf::<K::Pose>::divided_by, (u0, u2), x),
            call_ensures(ScalarOf::<K::Pose>::divided_by, (u1, u2), y),
        ]
        {
            &&& call_ensures(K::Pose::translation, (pose,), t)
            &&& call_ensures(K::apply, (k, t), u)
            &&& call_ensures(VectorOf::<K::Pose>::component, (u, 0usize), u0)
            &&& call_ensures(VectorOf::<K::Pose>::component, (u, 1usize), u1)
            &&& call_ensures(VectorOf::<K::Pose>::component, (u, 2usize), u2)
            &&& call_ensures(ScalarOf::<K::Pose>::from_ratio, (0i32, 1u32), zero)
            &&& call_ensures(ScalarOf::<K::Pose>::at_most, (u2, zero), behind)
            &&& call_ensures(ScalarOf::<K::Pose>::divided_by, (u0, u2), x)
            &&& call_ensures(ScalarOf::<K::Pose>::divided_by, (u1, u2), y)
            &&& call_ensures(K::Image::from_xy, (x, y), image)
        }
}

/// A projected point, and whether it lay behind the projection center. A
/// point behind the projection center still has an image; whoever uses the
/// image decides what to make of it.
#[derive(Debug)]
pub struct Projected<DstId: IsCoordinateFrameId, Image: Debug + Copy> {
    pub point: Point<DstId, R2, Image>,
    pub behind_projection_center: bool,
}

impl<DstId: IsCoordinateFrameId, Image: Debug + Copy> Clone for Projected<DstId, Image> {
    fn clone(&self) -> (r: Self)
        ensures
            r == *self,
    {
        *self
    }
}

impl<DstId: IsCoordinateFrameId, Image: Debug + Copy> Copy for Projected<DstId, Image> {

}

/// A transform from a coordinate system of rigid poses to an image plane,
/// by a projective matrix whose last row is `[0, 0, 1]`. It can be applied;
/// it has no inverse and does not compose.
#[derive(Debug)]
pub struct ProjectiveTransform<
    DstId: IsCoordinateFrameId,
    SrcId: IsCoordinateFrameId,
    K: IntrinsicsRepr,
> {
    dst: CoordinateSystem<DstId, R2, K::Image>,
    src: CoordinateSystem<SrcId, SE3, K::Pose>,
    k: K,
}

impl<
    DstId: IsCoordinateFrameId,
    SrcId: IsCoordinateFrameId,
    K: IntrinsicsRepr,
> Clone for ProjectiveTransform<
    DstId,
    SrcId,
    K,
> {
    fn clone(&self) -> (r: Self)
        ensures
            r == *self,
    {
        *self
    }
}

impl<
    DstId: IsCoordinateFrameId,
    SrcId: IsCoordinateFrameId,
    K: IntrinsicsRepr,
> Copy for ProjectiveTransform<
    DstId,
    SrcId,
    K,
> {

}

impl<
    DstId: IsCoordinateFrameId,
    SrcId: IsCoordinateFrameId,
    K: IntrinsicsRepr,
> ProjectiveTransform<DstId, SrcId, K> {
    /// The test of the last row came out true when `self` was made.
    #[verifier::type_invariant]
    spec fn last_row_was_canonical(self) -> bool {
        is_canonical_last_row(self.k, true)
    }

    /// The projective matrix of `self`.
    pub closed spec fn intrinsics(&self) -> K {
        self.k
    }

    /// The projective matrix of `self`, whose last row was found to be
    /// `[0, 0, 1]` when `self` was made.
    pub fn k(&self) -> (k: K)
        ensures
            k == self.intrinsics(),
            is_canonical_last_row(k, true),
    {
        proof {
            use_type_invariant(self);
        }
        self.k
    }

    /// The projective transform from `src` to `dst` with matrix `k`, if the
    /// last row of `k` is `[0, 0, 1]`.
    pub fn new(
        dst: CoordinateSystem<DstId, R2, K::Image>,
        src: CoordinateSystem<SrcId, SE3, K::Pose>,
        k: K,
    ) -> (r: Result<Self, MalformedProjection>)
        ensures
            is_canonical_last_row(k, r is Ok),
            r matches Ok(made) ==> {
                &&& made.dst_spec() == dst
                &&& made.src_spec() == src
                &&& made.intrinsics() == k
            },
    {
        if has_canonical_last_row(k) {
            Ok(Self { dst, src, k })
        } else {
            Err(MalformedProjection {  })
        }
    }

    /// The image of `point`, and whether `point` lay behind the projection
    /// center.
    pub fn project(&self, point: Point<SrcId, SE3, K::Pose>) -> (r: Projected<DstId, K::Image>)
        requires
            self.src_spec() == point.coordinate_system,
        ensures
            r.point.coordinate_system == self.dst_spec(),
            is_projection(
                self.intrinsics(),
                point.coordinates,
                r.point.coordinates,
                r.behind_projection_center,
            ),
    {
        let unnormalized_coords = self.k.apply(point.coordinates.translation());
        let depth = unnormalized_coords.component(2);
        let behind_projection_center = depth.at_most(ScalarOf::<K::Pose>::from_ratio(0, 1));
        let normalized_coords = K::Image::from_xy(
            unnormalized_coords.component(0).divided_by(depth),
            unnormalized_coords.component(1).divided_by(depth),
        );
        Projected {
            point: ManifoldElement::new(self.dst, normalized_coords),
            behind_projection_center,
        }
    }
}

impl<
    DstId: IsCoordinateFrameId,
    SrcId: IsCoordinateFrameId,
    K: IntrinsicsRepr,
> IsTransform<DstId, R2, K::Image, SrcId, SE3, K::Pose> for ProjectiveTransform<DstId, SrcId, K> {
    closed spec fn dst_spec(&self) -> CoordinateSystem<DstId, R2, K::Image> {
        self.dst
    }

    closed spec fn src_spec(&self) -> CoordinateSystem<SrcId, SE3, K::Pose> {
        self.src
    }

    /// The image is anchored to the destination, and its coordinates are
    /// the projection of the position of `point`, in front of the projection
    /// center or behind it.
    open spec fn maps(
        &self,
        point: Point<SrcId, SE3, K::Pose>,
        image: Point<DstId, R2, K::Image>,
    ) -> bool {
        &&& image.coordinate_system == self.dst_spec()
        &&& exists|behind: bool|
            is_projection(self.intrinsics(), point.coordinates, image.coordinates, behind)
    }

    fn dst(&self) -> (r: CoordinateSystem<DstId, R2, K::Image>) {
        self.dst
    }

    fn src(&self) -> (r: CoordinateSystem<SrcId, SE3, K::Pose>) {
        self.src
    }

    fn transform_inner(&self, point: Point<SrcId, SE3, K::Pose>) -> (image: Point<
        DstId,
        R2,
        K::Image,
    >) {
        self.project(point).point
    }
}

} // verus!
