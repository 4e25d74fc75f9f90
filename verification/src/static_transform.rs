//! Transforms that do not change with time: the extrinsics between two
//! sensors of one rig, the intrinsics of a camera. A static transform holds
//! no timestamp; `at_time` makes the transform between its two coordinate
//! systems at a given instant.

use vstd::prelude::*;
use core::marker::PhantomData;
use crate::coordinate_system::{CoordinateSystem, IsCoordinateFrameId};
use crate::manifold::{R2, SE3};
use crate::numeric::{GroupRepr, IntrinsicsRepr};
use crate::transform::{IsTransform, MalformedProjection, ProjectiveTransform, SE3Transform};

verus! {

/// A rigid transform from the frame `SrcId` to the frame `DstId` that holds
/// at every instant.
#[derive(Debug)]
pub struct StaticSE3Transform<
    DstId: IsCoordinateFrameId,
    SrcId: IsCoordinateFrameId,
    Repr: GroupRepr<SE3>,
> {
    _dst: PhantomData<DstId>,
    _src: PhantomData<SrcId>,
    transform: Repr,
}

impl<
    DstId: IsCoordinateFrameId,
    SrcId: IsCoordinateFrameId,
    Repr: GroupRepr<SE3>,
> Clone for StaticSE3Transform<
    DstId,
    SrcId,
    Repr,
> {
    fn clone(&self) -> (r: Self)
        ensures
            r == *self,
    {
        *self
    }
}

impl<
    DstId: IsCoordinateFrameId,
    SrcId: IsCoordinateFrameId,
    Repr: GroupRepr<SE3>,
> Copy for StaticSE3Transform<
    DstId,
    SrcId,
    Repr,
> {

}

impl<
    DstId: IsCoordinateFrameId,
    SrcId: IsCoordinateFrameId,
    Repr: GroupRepr<SE3>,
> StaticSE3Transform<DstId, SrcId, Repr> {
    /// The representation of `self`: the origin of the source frame, as a
    /// pose in the destination frame.
    pub closed spec fn representation(&self) -> Repr {
        self.transform
    }

    /// The static transform with representation `transform`.
    pub fn new(transform: Repr) -> (r: Self)
        ensures
            r.representation() == transform,
    {
        Self { _dst: PhantomData, _src: PhantomData, transform }
    }

    pub fn transform(&self) -> (r: Repr)
        ensures
            r == self.representation(),
    {
        self.transform
    }

    /// The transform between the two frames at the instant `time`.
    pub fn at_time(&self, time: u64) -> (r: SE3Transform<DstId, SrcId, Repr>)
        ensures
            r.dst_spec() == CoordinateSystem::<DstId, SE3, Repr>::at_time(time),
            r.src_spec() == CoordinateSystem::<SrcId, SE3, Repr>::at_time(time),
            r.representation() == self.representation(),
    {
        SE3Transform::new(
            CoordinateSystem::at_time(time),
            CoordinateSystem::at_time(time),
            self.transform,
        )
    }

    /// The static transform back from `DstId` to `SrcId`.
    pub fn invert(&self) -> (r: StaticSE3Transform<SrcId, DstId, Repr>)
        ensures
            call_ensures(Repr::inverse, (self.representation(),), r.representation()),
    {
        StaticSE3Transform::new(self.transform.inverse())
    }

    /// The static transform that applies `rhs` and then `self`.
    pub fn compose_with<RhsSrcId: IsCoordinateFrameId>(
        &self,
        rhs: StaticSE3Transform<SrcId, RhsSrcId, Repr>,
    ) -> (r: StaticSE3Transform<DstId, RhsSrcId, Repr>)
        ensures
            call_ensures(
                Repr::compose,
                (self.representation(), rhs.representation()),
                r.representation(),
            ),
    {
        StaticSE3Transform::new(self.transform.compose(rhs.transform))
    }
}

/// A projective matrix from the frame `SrcId` to the image plane `DstId`
/// that holds at every instant.
#[derive(Debug)]
pub struct StaticProjectiveTransform<
    DstId: IsCoordinateFrameId,
    SrcId: IsCoordinateFrameId,
    K: IntrinsicsRepr,
> {
    _dst: PhantomData<DstId>,
    _src: PhantomData<SrcId>,
    k: K,
}

impl<
    DstId: IsCoordinateFrameId,
    SrcId: IsCoordinateFrameId,
    K: IntrinsicsRepr,
> Clone for StaticProjectiveTransform<
    DstId,
    SrcId,
    K,
> {
    fn clone(&self) -> (r: Self)
        ensures
            r == *self,
    {
        *self
    }
}

impl<
    DstId: IsCoordinateFrameId,
    SrcId: IsCoordinateFrameId,
    K: IntrinsicsRepr,
> Copy for StaticProjectiveTransform<
    DstId,
    SrcId,
    K,
> {

}

impl<
    DstId: IsCoordinateFrameId,
    SrcId: IsCoordinateFrameId,
    K: IntrinsicsRepr,
> StaticProjectiveTransform<DstId, SrcId, K> {
    /// The projective matrix of `self`.
    pub closed spec fn intrinsics(&self) -> K {
        self.k
    }

    /// The static projective transform with matrix `k`. The last row of `k`
    /// is looked at when the transform is placed in time.
    pub fn new(k: K) -> (r: Self)
        ensures
            r.intrinsics() == k,
    {
        Self { _dst: PhantomData, _src: PhantomData, k }
    }

    pub fn k(&self) -> (r: K)
        ensures
            r == self.intrinsics(),
    {
        self.k
    }

    /// The projective transform between the frame and the image plane at
    /// the instant `time`, if the last row of the matrix is `[0, 0, 1]`.
    pub fn at_time(&self, time: u64) -> (r: Result<
        ProjectiveTransform<DstId, SrcId, K>,
        MalformedProjection,
    >)
        ensures
            crate::transform::is_canonical_last_row(self.intrinsics(), r is Ok),
            r matches Ok(made) ==> {
                &&& made.dst_spec() == CoordinateSystem::<DstId, R2, K::Image>::at_time(time)
                &&& made.src_spec() == CoordinateSystem::<SrcId, SE3, K::Pose>::at_time(time)
                &&& made.intrinsics() == self.intrinsics()
            },
    {
        ProjectiveTransform::new(
            CoordinateSystem::at_time(time),
            CoordinateSystem::at_time(time),
            self.k,
        )
    }
}

} // verus!
