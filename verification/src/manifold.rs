//! Manifold tags: what kind of space a coordinate system's numbers live in.
//!
//! A tag is a type without runtime state. The traits of this module sort the
//! tags by capability, and pair every Lie group with its Lie algebra: the
//! pairing is carried by associated types, so that `G::Algebra::Group` is `G`
//! and `A::Group::Algebra` is `A` by construction.

use vstd::prelude::*;
use core::fmt::Debug;
use core::hash::Hash;

verus! {

/// A tag for a space that values can be points of.
pub trait IsManifold: Debug + Default + Copy + Eq + Hash {
    /// A manifold tag carries no runtime state: any two values of one tag
    /// are the same value.
    proof fn stateless(a: Self, b: Self)
        ensures
            a == b,
    ;
}

/// A tag for a manifold with a tangent space at each of its points.
pub trait Differentiable: Debug + Default + Copy + Eq + Hash {

}

/// A tag for a space with a composition, an identity and inverses.
pub trait IsGroup: Debug + Default + Copy + Eq + Hash {

}

/// A tag for a group that is also a vector space.
pub trait IsVectorSpace: IsGroup + IsManifold + Differentiable {

}

/// A tag for a Lie group, paired with the tag of its Lie algebra.
pub trait IsLieGroup: IsGroup + IsManifold + Differentiable {
    type Algebra: IsVectorSpace;
}

/// A tag for a Lie algebra, paired with the tag of its Lie group, which
/// names this algebra as its own.
pub trait IsLieAlgebra: IsVectorSpace {
    type Group: IsLieGroup<Algebra = Self>;
}

/// The real projective plane.
#[derive(Debug, Default, Clone, Copy, Hash, PartialEq, Eq, Structural)]
pub struct RP2 {}

impl IsManifold for RP2 {
    proof fn stateless(a: Self, b: Self) {
    }
}

impl Differentiable for RP2 {

}

/// The group of rigid motions of three-dimensional space.
#[derive(Debug, Default, Clone, Copy, Hash, PartialEq, Eq, Structural)]
pub struct SE3 {}

impl IsManifold for SE3 {
    proof fn stateless(a: Self, b: Self) {
    }
}

impl Differentiable for SE3 {

}

impl IsGroup for SE3 {

}

impl IsLieGroup for SE3 {
    type Algebra = se3;
}

/// The twists: the Lie algebra of [`SE3`].
#[allow(non_camel_case_types)]
#[derive(Debug, Default, Clone, Copy, Hash, PartialEq, Eq, Structural)]
pub struct se3 {}

impl IsManifold for se3 {
    proof fn stateless(a: Self, b: Self) {
    }
}

impl Differentiable for se3 {

}

impl IsGroup for se3 {

}

impl IsVectorSpace for se3 {

}

impl IsLieAlgebra for se3 {
    type Group = SE3;
}

/// The group of rotations of three-dimensional space.
#[derive(Debug, Default, Clone, Copy, Hash, PartialEq, Eq, Structural)]
pub struct SO3 {}

impl IsManifold for SO3 {
    proof fn stateless(a: Self, b: Self) {
    }
}

impl Differentiable for SO3 {

}

impl IsGroup for SO3 {

}

impl IsLieGroup for SO3 {
    type Algebra = so3;
}

/// The rotation vectors: the Lie algebra of [`SO3`].
#[allow(non_camel_case_types)]
#[derive(Debug, Default, Clone, Copy, Hash, PartialEq, Eq, Structural)]
pub struct so3 {}

impl IsManifold for so3 {
    proof fn stateless(a: Self, b: Self) {
    }
}

impl Differentiable for so3 {

}

impl IsGroup for so3 {

}

impl IsVectorSpace for so3 {

}

impl IsLieAlgebra for so3 {
    type Group = SO3;
}

/// Three-dimensional space under vector addition. It is its own Lie algebra.
#[derive(Debug, Default, Clone, Copy, Hash, PartialEq, Eq, Structural)]
pub struct R3 {}

impl IsManifold for R3 {
    proof fn stateless(a: Self, b: Self) {
    }
}

impl Differentiable for R3 {

}

impl IsGroup for R3 {

}

impl IsVectorSpace for R3 {

}

impl IsLieGroup for R3 {
    type Algebra = R3;
}

impl IsLieAlgebra for R3 {
    type Group = R3;
}

/// The rigid motions of the plane.
#[derive(Debug, Default, Clone, Copy, Hash, PartialEq, Eq, Structural)]
pub struct SE2 {}

impl IsManifold for SE2 {
    proof fn stateless(a: Self, b: Self) {
    }
}

impl Differentiable for SE2 {

}

/// The rotations of the plane.
#[derive(Debug, Default, Clone, Copy, Hash, PartialEq, Eq, Structural)]
pub struct SO2 {}

impl IsManifold for SO2 {
    proof fn stateless(a: Self, b: Self) {
    }
}

impl Differentiable for SO2 {

}

/// The plane.
#[derive(Debug, Default, Clone, Copy, Hash, PartialEq, Eq, Structural)]
pub struct R2 {}

impl IsManifold for R2 {
    proof fn stateless(a: Self, b: Self) {
    }
}

impl Differentiable for R2 {

}

/// `Group` and its algebra name each other: the algebra of `Group` is a Lie
/// algebra, and its group is `Group` again.
pub proof fn paired_with_its_algebra<Group: IsLieGroup>() where
    Group::Algebra: IsLieAlgebra<Group = Group>,
 {
}

/// The pairing of Lie groups and Lie algebras among the tags of this module
/// is one to one: each of the three Lie groups is the group of its own
/// algebra. That each Lie algebra is the algebra of its own group is what
/// [`IsLieAlgebra`] asks of every implementation.
pub proof fn lemma_pairing_is_mutual() {
    paired_with_its_algebra::<SE3>();
    paired_with_its_algebra::<SO3>();
    paired_with_its_algebra::<R3>();
}

} // verus!
