//! The group law on anchored values.
//!
//! Two values can be composed only when they are expressed in the same
//! coordinate system, and the result is expressed in that coordinate system
//! too. What the composition does to the coordinates is the business of the
//! representation: quaternion product for rotations, composition of
//! isometries for rigid poses, vector addition for translations.

use vstd::prelude::*;
use core::fmt::Debug;
use crate::coordinate_system::{
    CoordinateSystem, IsCoordinateFrameId, IsManifoldElement, ManifoldElement,
};
use crate::manifold::{Differentiable, IsGroup, IsManifold};
use crate::numeric::GroupRepr;

verus! {

/// An anchored value of a group manifold.
pub trait IsGroupElement<
    CoordinateFrameId: IsCoordinateFrameId,
    Group: IsGroup + IsManifold + Differentiable,
    Repr: Debug + Copy,
>: IsManifoldElement<CoordinateFrameId, Group, Repr> {
    /// `product` is a result of composing `self` with `rhs`.
    spec fn is_product(self, rhs: Self, product: Self) -> bool;

    /// `self` is a neutral element, as the representation makes it.
    spec fn is_identity(self) -> bool;

    /// `inverse` is a result of inverting `self`.
    spec fn is_inverse(self, inverse: Self) -> bool;

    /// Composes `self` with `rhs`.
    fn group_mul(self, rhs: Self) -> (product: Self)
        requires
            self.coordinate_system_spec() == rhs.coordinate_system_spec(),
        ensures
            product.coordinate_system_spec() == self.coordinate_system_spec(),
            self.is_product(rhs, product),
    ;

    /// The neutral element, anchored to `coordinate_system`.
    fn identity_at(coordinate_system: CoordinateSystem<CoordinateFrameId, Group, Repr>) -> (e: Self)
        ensures
            e.coordinate_system_spec() == coordinate_system,
            e.is_identity(),
    ;

    /// The inverse of `self`.
    fn invert(self) -> (inverse: Self)
        ensures
            inverse.coordinate_system_spec() == self.coordinate_system_spec(),
            self.is_inverse(inverse),
    ;
}

impl<
    CoordinateFrameId: IsCoordinateFrameId,
    Group: IsGroup + IsManifold + Differentiable,
    Repr: GroupRepr<Group>,
> IsGroupElement<CoordinateFrameId, Group, Repr> for ManifoldElement<
    CoordinateFrameId,
    Group,
    Repr,
> {
    open spec fn is_product(self, rhs: Self, product: Self) -> bool {
        &&& product.coordinate_system == self.coordinate_system
        &&& call_ensures(Repr::compose, (self.coordinates, rhs.coordinates), product.coordinates)
    }

    open spec fn is_identity(self) -> bool {
        call_ensures(Repr::identity, (), self.coordinates)
    }

    open spec fn is_inverse(self, inverse: Self) -> bool {
        &&& inverse.coordinate_system == self.coordinate_system
        &&& call_ensures(Repr::inverse, (self.coordinates,), inverse.coordinates)
    }

    fn group_mul(self, rhs: Self) -> (product: Self) {
        ManifoldElement::new(self.coordinate_system, self.coordinates.compose(rhs.coordinates))
    }

    fn identity_at(coordinate_system: CoordinateSystem<CoordinateFrameId, Group, Repr>) -> (e:
        Self) {
        ManifoldElement::new(coordinate_system, Repr::identity())
    }

    fn invert(self) -> (inverse: Self) {
        ManifoldElement::new(self.coordinate_system, self.coordinates.inverse())
    }
}

/// A group on the values of `Repr`, as mathematics has it: a composition, an
/// inversion and a neutral element, each a function in the strict sense.
#[verifier::reject_recursive_types(Repr)]
pub struct GroupModel<Repr> {
    pub product: spec_fn(Repr, Repr) -> Repr,
    pub inverse: spec_fn(Repr) -> Repr,
    pub neutral: Repr,
}

impl<Repr> GroupModel<Repr> {
    /// `(a · b) · c` is `a · (b · c)`.
    pub open spec fn associates(self, a: Repr, b: Repr, c: Repr) -> bool {
        (self.product)((self.product)(a, b), c) == (self.product)(a, (self.product)(b, c))
    }

    /// `a · e` is `a`, where `e` is the neutral element.
    pub open spec fn keeps_on_the_right(self, a: Repr) -> bool {
        (self.product)(a, self.neutral) == a
    }

    /// `a · a⁻¹` is the neutral element.
    pub open spec fn cancels_on_the_right(self, a: Repr) -> bool {
        (self.product)(a, (self.inverse)(a)) == self.neutral
    }

    /// The group axioms: composition is associative, the neutral element is
    /// neutral on the right, and an element composed with its inverse is
    /// the neutral element.
    pub open spec fn is_group(self) -> bool {
        &&& forall|a: Repr, b: Repr, c: Repr| #[trigger] self.associates(a, b, c)
        &&& forall|a: Repr| #[trigger] self.keeps_on_the_right(a)
        &&& forall|a: Repr| #[trigger] self.cancels_on_the_right(a)
    }

    /// In a group the inverse cancels from the left as well: `a⁻¹ · a` is
    /// the neutral element.
    pub proof fn lemma_left_inverse(self, a: Repr)
        requires
            self.is_group(),
        ensures
            (self.product)((self.inverse)(a), a) == self.neutral,
    {
        let b = (self.inverse)(a);
        let c = (self.inverse)(b);
        let ba = (self.product)(b, a);
        // b·a = (b·a)·e = (b·a)·(b·c) = ((b·a)·b)·c
        //     = (b·(a·b))·c = (b·e)·c = b·c = e
        assert(self.keeps_on_the_right(ba));
        assert(self.cancels_on_the_right(b));
        assert(self.associates(ba, b, c));
        assert(self.associates(b, a, b));
        assert(self.cancels_on_the_right(a));
        assert(self.keeps_on_the_right(b));
    }

    /// In a group the neutral element is neutral from the left as well:
    /// `e · a` is `a`.
    pub proof fn lemma_left_identity(self, a: Repr)
        requires
            self.is_group(),
        ensures
            (self.product)(self.neutral, a) == a,
    {
        let b = (self.inverse)(a);
        // e·a = (a·b)·a = a·(b·a) = a·e = a
        self.lemma_left_inverse(a);
        assert(self.cancels_on_the_right(a));
        assert(self.associates(a, b, a));
        assert(self.keeps_on_the_right(a));
    }
}

/// The representation `Repr` of `Group` computes in the group `model`
/// exactly: whatever one of its three operations returns is what `model`
/// has for the same operands.
///
/// Arithmetic that rounds computes in no group: for it the group axioms hold
/// up to a tolerance, which is a matter of measurement and not of proof.
pub open spec fn computes_in<Group: IsGroup, Repr: GroupRepr<Group>>(
    model: GroupModel<Repr>,
) -> bool {
    &&& forall|a: Repr, b: Repr, c: Repr| #[trigger]
        call_ensures(Repr::compose, (a, b), c) ==> c == (model.product)(a, b)
    &&& forall|a: Repr, c: Repr| #[trigger]
        call_ensures(Repr::inverse, (a,), c) ==> c == (model.inverse)(a)
    &&& forall|c: Repr| #[trigger] call_ensures(Repr::identity, (), c) ==> c == model.neutral
}

/// Composition of anchored values is associative where the representation
/// is exact: `(a · b) · c` and `a · (b · c)` are the same value of the same
/// coordinate system.
pub proof fn lemma_group_mul_is_associative<
    CoordinateFrameId: IsCoordinateFrameId,
    Group: IsGroup + IsManifold + Differentiable,
    Repr: GroupRepr<Group>,
>(
    model: GroupModel<Repr>,
    a: ManifoldElement<CoordinateFrameId, Group, Repr>,
    b: ManifoldElement<CoordinateFrameId, Group, Repr>,
    c: ManifoldElement<CoordinateFrameId, Group, Repr>,
    ab: ManifoldElement<CoordinateFrameId, Group, Repr>,
    ab_c: ManifoldElement<CoordinateFrameId, Group, Repr>,
    bc: ManifoldElement<CoordinateFrameId, Group, Repr>,
    a_bc: ManifoldElement<CoordinateFrameId, Group, Repr>,
)
    requires
        model.is_group(),
        computes_in::<Group, Repr>(model),
        a.coordinate_system == b.coordinate_system,
        b.coordinate_system == c.coordinate_system,
        a.is_product(b, ab),
        ab.is_product(c, ab_c),
        b.is_product(c, bc),
        a.is_product(bc, a_bc),
    ensures
        ab_c == a_bc,
{
    assert(model.associates(a.coordinates, b.coordinates, c.coordinates));
}

/// Composing with the neutral element of its coordinate system leaves an
/// anchored value as it is, on either side, where the representation is
/// exact.
pub proof fn lemma_identity_is_neutral<
    CoordinateFrameId: IsCoordinateFrameId,
    Group: IsGroup + IsManifold + Differentiable,
    Repr: GroupRepr<Group>,
>(
    model: GroupModel<Repr>,
    a: ManifoldElement<CoordinateFrameId, Group, Repr>,
    e: ManifoldElement<CoordinateFrameId, Group, Repr>,
    ae: ManifoldElement<CoordinateFrameId, Group, Repr>,
    ea: ManifoldElement<CoordinateFrameId, Group, Repr>,
)
    requires
        model.is_group(),
        computes_in::<Group, Repr>(model),
        e.is_identity(),
        e.coordinate_system == a.coordinate_system,
        a.is_product(e, ae),
        e.is_product(a, ea),
    ensures
        ae == a,
        ea == a,
{
    model.lemma_left_identity(a.coordinates);
    assert(model.keeps_on_the_right(a.coordinates));
}

/// An anchored value composed with its inverse, on either side, is the
/// neutral element at its coordinate system, where the representation is
/// exact.
pub proof fn lemma_inverse_cancels<
    CoordinateFrameId: IsCoordinateFrameId,
    Group: IsGroup + IsManifold + Differentiable,
    Repr: GroupRepr<Group>,
>(
    model: GroupModel<Repr>,
    a: ManifoldElement<CoordinateFrameId, Group, Repr>,
    inverse: ManifoldElement<CoordinateFrameId, Group, Repr>,
    right: ManifoldElement<CoordinateFrameId, Group, Repr>,
    left: ManifoldElement<CoordinateFrameId, Group, Repr>,
)
    requires
        model.is_group(),
        computes_in::<Group, Repr>(model),
        a.is_inverse(inverse),
        a.is_product(inverse, right),
        inverse.is_product(a, left),
    ensures
        right.coordinates == model.neutral,
        right.coordinate_system == a.coordinate_system,
        left == right,
{
    model.lemma_left_inverse(a.coordinates);
    assert(model.cancels_on_the_right(a.coordinates));
}

} // verus!
