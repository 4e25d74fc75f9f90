//! Coordinate frames, coordinate systems, and the values anchored to them.
//!
//! A frame tag names a frame at compile time; a timestamp says at run time
//! which instant of that frame is meant. Two coordinate systems of one type
//! are therefore the same exactly when their timestamps agree, and that is
//! what `==` computes.

use vstd::prelude::*;
use core::fmt::Debug;
use core::hash::Hash;
use core::marker::PhantomData;
use vstd::std_specs::cmp::PartialEqSpecImpl;
use crate::manifold::{Differentiable, IsManifold};

verus! {

/// A tag that names one physical or logical frame.
pub trait IsCoordinateFrameId: Debug + Default + Copy + Eq + Hash {
    /// A frame tag carries no runtime state: any two values of one tag are
    /// the same value.
    proof fn stateless(a: Self, b: Self)
        ensures
            a == b,
    ;
}

/// A frame at a time instant.
#[derive(Debug, Hash)]
pub struct CoordinateFrame<Id: IsCoordinateFrameId> {
    pub time: u64,
    pub id: Id,
}

impl<Id: IsCoordinateFrameId> Clone for CoordinateFrame<Id> {
    fn clone(&self) -> (r: Self)
        ensures
            r == *self,
    {
        *self
    }
}

impl<Id: IsCoordinateFrameId> Copy for CoordinateFrame<Id> {

}

impl<Id: IsCoordinateFrameId> PartialEq for CoordinateFrame<Id> {
    fn eq(&self, other: &Self) -> (r: bool) {
        proof {
            Id::stateless(self.id, other.id);
        }
        self.time == other.time
    }
}

impl<Id: IsCoordinateFrameId> Eq for CoordinateFrame<Id> {

}

impl<Id: IsCoordinateFrameId> PartialEqSpecImpl for CoordinateFrame<Id> {
    open spec fn obeys_eq_spec() -> bool {
        true
    }

    open spec fn eq_spec(&self, other: &Self) -> bool {
        *self == *other
    }
}

impl<Id: IsCoordinateFrameId> CoordinateFrame<Id> {
    /// The frame `Id` at the instant `time`.
    pub open spec fn spec_at_time(time: u64) -> Self {
        CoordinateFrame { time, id: arbitrary() }
    }

    /// The frame `Id` at the instant `time`.
    #[verifier::when_used_as_spec(spec_at_time)]
    pub fn at_time(time: u64) -> (r: Self)
        ensures
            r == Self::spec_at_time(time),
            r.time == time,
    {
        let id = Id::default();
        proof {
            Id::stateless(id, arbitrary());
        }
        Self { time, id }
    }

    /// Two frames of one tag are the same frame exactly when their
    /// timestamps agree.
    pub proof fn lemma_equal_iff_same_time(self, other: Self)
        ensures
            self == other <==> self.time == other.time,
    {
        Id::stateless(self.id, other.id);
    }
}

/// A frame at a time instant, together with the kind of space that
/// coordinates in it belong to. `Repr` is the type of those coordinates; it
/// plays no part in the coordinate system's identity.
#[derive(Debug, Hash)]
pub struct CoordinateSystem<
    Id: IsCoordinateFrameId,
    Manifold: IsManifold + Differentiable,
    Repr: Debug + Copy,
> {
    pub frame: CoordinateFrame<Id>,
    pub manifold: Manifold,
    pub repr: PhantomData<Repr>,
}

impl<
    Id: IsCoordinateFrameId,
    Manifold: IsManifold + Differentiable,
    Repr: Debug + Copy,
> Clone for CoordinateSystem<Id, Manifold, Repr> {
    fn clone(&self) -> (r: Self)
        ensures
            r == *self,
    {
        *self
    }
}

impl<
    Id: IsCoordinateFrameId,
    Manifold: IsManifold + Differentiable,
    Repr: Debug + Copy,
> Copy for CoordinateSystem<Id, Manifold, Repr> {

}

impl<
    Id: IsCoordinateFrameId,
    Manifold: IsManifold + Differentiable,
    Repr: Debug + Copy,
> PartialEq for CoordinateSystem<Id, Manifold, Repr> {
    fn eq(&self, other: &Self) -> (r: bool) {
        proof {
            Manifold::stateless(self.manifold, other.manifold);
        }
        self.frame == other.frame
    }
}

impl<
    Id: IsCoordinateFrameId,
    Manifold: IsManifold + Differentiable,
    Repr: Debug + Copy,
> Eq for CoordinateSystem<Id, Manifold, Repr> {

}

impl<
    Id: IsCoordinateFrameId,
    Manifold: IsManifold + Differentiable,
    Repr: Debug + Copy,
> PartialEqSpecImpl for CoordinateSystem<Id, Manifold, Repr> {
    open spec fn obeys_eq_spec() -> bool {
        true
    }

    open spec fn eq_spec(&self, other: &Self) -> bool {
        *self == *other
    }
}

impl<
    Id: IsCoordinateFrameId,
    Manifold: IsManifold + Differentiable,
    Repr: Debug + Copy,
> CoordinateSystem<Id, Manifold, Repr> {
    /// The coordinate system of manifold `Manifold` on the frame `frame`.
    pub open spec fn spec_at_frame(frame: CoordinateFrame<Id>) -> Self {
        CoordinateSystem { frame, manifold: arbitrary(), repr: PhantomData }
    }

    /// The coordinate system of manifold `Manifold` on the frame `Id` at the
    /// instant `time`.
    pub open spec fn spec_at_time(time: u64) -> Self {
        Self::spec_at_frame(CoordinateFrame::spec_at_time(time))
    }

    /// The coordinate system of manifold `Manifold` on the frame `frame`.
    #[verifier::when_used_as_spec(spec_at_frame)]
    pub fn at_frame(frame: CoordinateFrame<Id>) -> (r: Self)
        ensures
            r == Self::spec_at_frame(frame),
            r.frame == frame,
    {
        let manifold = Manifold::default();
        proof {
            Manifold::stateless(manifold, arbitrary());
        }
        Self { frame, manifold, repr: PhantomData }
    }

    /// The coordinate system of manifold `Manifold` on the frame `Id` at the
    /// instant `time`.
    #[verifier::when_used_as_spec(spec_at_time)]
    pub fn at_time(time: u64) -> (r: Self)
        ensures
            r == Self::spec_at_time(time),
            r.frame.time == time,
    {
        Self::at_frame(CoordinateFrame::at_time(time))
    }

    /// Two coordinate systems of one type are the same exactly when their
    /// timestamps agree: the frame tag and the manifold tag are fixed by the
    /// type.
    pub proof fn lemma_equal_iff_same_time(self, other: Self)
        ensures
            self == other <==> self.frame.time == other.frame.time,
    {
        Id::stateless(self.frame.id, other.frame.id);
        Manifold::stateless(self.manifold, other.manifold);
    }
}

/// Coordinates anchored to the coordinate system they are expressed in.
#[derive(Debug)]
pub struct ManifoldElement<
    Id: IsCoordinateFrameId,
    Manifold: IsManifold + Differentiable,
    Repr: Debug + Copy,
> {
    pub coordinate_system: CoordinateSystem<Id, Manifold, Repr>,
    pub coordinates: Repr,
}

/// A manifold element, by its everyday name.
pub type Point<Id, Manifold, Repr> = ManifoldElement<Id, Manifold, Repr>;

impl<
    Id: IsCoordinateFrameId,
    Manifold: IsManifold + Differentiable,
    Repr: Debug + Copy,
> Clone for ManifoldElement<Id, Manifold, Repr> {
    fn clone(&self) -> (r: Self)
        ensures
            r == *self,
    {
        *self
    }
}

impl<
    Id: IsCoordinateFrameId,
    Manifold: IsManifold + Differentiable,
    Repr: Debug + Copy,
> Copy for ManifoldElement<Id, Manifold, Repr> {

}

impl<
    Id: IsCoordinateFrameId,
    Manifold: IsManifold + Differentiable,
    Repr: Debug + Copy,
> ManifoldElement<Id, Manifold, Repr> {
    /// The value with coordinates `coordinates` in `coordinate_system`.
    pub fn new(coordinate_system: CoordinateSystem<Id, Manifold, Repr>, coordinates: Repr) -> (r:
        Self)
        ensures
            r.coordinate_system == coordinate_system,
            r.coordinates == coordinates,
    {
        Self { coordinate_system, coordinates }
    }

    /// The coordinates, without their anchor.
    pub fn coordinates(self) -> (r: Repr)
        ensures
            r == self.coordinates,
    {
        self.coordinates
    }
}

/// A value that knows the coordinate system it is expressed in.
pub trait IsManifoldElement<
    Id: IsCoordinateFrameId,
    Manifold: IsManifold + Differentiable,
    Repr: Debug + Copy,
>: Debug + Copy {
    /// The coordinate system that `self` is anchored to.
    spec fn coordinate_system_spec(self) -> CoordinateSystem<Id, Manifold, Repr>;

    fn coordinate_system(self) -> (r: CoordinateSystem<Id, Manifold, Repr>)
        ensures
            r == self.coordinate_system_spec(),
    ;
}

impl<
    Id: IsCoordinateFrameId,
    Manifold: IsManifold + Differentiable,
    Repr: Debug + Copy,
> IsManifoldElement<Id, Manifold, Repr> for ManifoldElement<Id, Manifold, Repr> {
    open spec fn coordinate_system_spec(self) -> CoordinateSystem<Id, Manifold, Repr> {
        self.coordinate_system
    }

    fn coordinate_system(self) -> (r: CoordinateSystem<Id, Manifold, Repr>) {
        self.coordinate_system
    }
}

} // verus!
