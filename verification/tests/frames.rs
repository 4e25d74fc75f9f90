use coordinate_systems::{
    CoordinateFrame, CoordinateFrameA, CoordinateFrameB, CoordinateFrameC, CoordinateSystem,
    FrameMismatch, GroupRepr, IsCoordinateFrameId, IsGroupElement, IsManifoldElement, IsTransform,
    ManifoldElement, Point, Transform, R3, SE3, SO3,
};

/// Whole steps on a grid that wraps around: a group whose arithmetic is
/// exact.
#[derive(Debug, Clone, Copy, PartialEq, Eq)]
struct Steps([i64; 3]);

impl GroupRepr<R3> for Steps {
    fn compose(self, rhs: Self) -> Self {
        Steps([
            self.0[0].wrapping_add(rhs.0[0]),
            self.0[1].wrapping_add(rhs.0[1]),
            self.0[2].wrapping_add(rhs.0[2]),
        ])
    }

    fn inverse(self) -> Self {
        Steps([self.0[0].wrapping_neg(), self.0[1].wrapping_neg(), self.0[2].wrapping_neg()])
    }

    fn identity() -> Self {
        Steps([0, 0, 0])
    }
}

#[derive(Debug, Default, Clone, Copy, PartialEq, Eq, Hash)]
struct Workbench {}

impl IsCoordinateFrameId for Workbench {
    fn stateless(_a: Self, _b: Self) {}
}

#[test]
fn frames_are_equal_exactly_when_their_instants_are() {
    let a = CoordinateFrame::<CoordinateFrameA>::at_time(3);
    let b = CoordinateFrame::<CoordinateFrameA>::at_time(3);
    let c = CoordinateFrame::<CoordinateFrameA>::at_time(4);
    assert_eq!(a.time, 3);
    assert!(a == b);
    assert!(a != c);
    assert!(CoordinateFrame::<CoordinateFrameA>::at_time(0) == CoordinateFrame::at_time(0));
    assert!(
        CoordinateFrame::<CoordinateFrameA>::at_time(u64::MAX)
            != CoordinateFrame::at_time(u64::MAX - 1)
    );
}

#[test]
fn coordinate_systems_are_equal_exactly_when_their_instants_are() {
    let a = CoordinateSystem::<CoordinateFrameB, SE3, u8>::at_time(10);
    let b = CoordinateSystem::<CoordinateFrameB, SE3, u8>::at_frame(CoordinateFrame::at_time(10));
    let c = CoordinateSystem::<CoordinateFrameB, SE3, u8>::at_time(11);
    assert!(a == b);
    assert!(a != c);
    assert_eq!(a.frame.time, 10);
    assert_eq!(b.frame, CoordinateFrame::at_time(10));
}

#[test]
fn a_point_keeps_what_it_was_given() {
    let cs = CoordinateSystem::<CoordinateFrameC, SO3, u32>::at_time(1);
    let p = Point::new(cs, 77u32);
    assert!(p.coordinate_system() == cs);
    assert_eq!(p.coordinates(), 77);
    assert_eq!(p.coordinates, 77);
    let again = p;
    assert_eq!(again.coordinates(), p.coordinates());
}

#[test]
fn a_frame_tag_of_the_caller_works_like_the_others() {
    let cs = CoordinateSystem::<Workbench, R3, Steps>::at_time(2);
    let p = ManifoldElement::new(cs, Steps([1, 2, 3]));
    assert!(p.invert().coordinate_system == cs);
    assert_eq!(p.invert().coordinates, Steps([-1, -2, -3]));
}

fn steps(time: u64, at: [i64; 3]) -> ManifoldElement<CoordinateFrameA, R3, Steps> {
    ManifoldElement::new(CoordinateSystem::at_time(time), Steps(at))
}

#[test]
fn exact_group_axioms() {
    let a = steps(1, [1, -2, 3]);
    let b = steps(1, [40, 50, 60]);
    let c = steps(1, [i64::MAX, 0, i64::MIN]);
    let left = a.group_mul(b).group_mul(c);
    let right = a.group_mul(b.group_mul(c));
    assert_eq!(left.coordinates, right.coordinates);
    assert!(left.coordinate_system == right.coordinate_system);

    let e = ManifoldElement::<CoordinateFrameA, R3, Steps>::identity_at(a.coordinate_system);
    assert_eq!(a.group_mul(e).coordinates, a.coordinates);
    assert_eq!(e.group_mul(a).coordinates, a.coordinates);
    assert_eq!(c.group_mul(c.invert()).coordinates, e.coordinates);
    assert_eq!(c.invert().group_mul(c).coordinates, e.coordinates);
    assert!(c.group_mul(c.invert()).coordinate_system == c.coordinate_system);
}

fn shift(
    dst: u64,
    src: u64,
    by: [i64; 3],
) -> Transform<CoordinateFrameB, CoordinateFrameA, R3, Steps> {
    Transform::new(CoordinateSystem::at_time(dst), CoordinateSystem::at_time(src), Steps(by))
}

#[test]
fn exact_round_trip() {
    let t = shift(5, 1, [7, 8, 9]);
    let p = steps(1, [1, -2, 3]);
    let image = t.transform(p);
    assert!(image.coordinate_system == t.dst());
    assert_eq!(image.coordinates, Steps([8, 6, 12]));
    let back = t.invert().transform(image);
    assert!(back.coordinate_system == p.coordinate_system);
    assert_eq!(back.coordinates, p.coordinates);
}

#[test]
fn exact_composition_identities() {
    let a = shift(5, 1, [7, 8, 9]);

    let composed = Transform::identity_at(a.dst()).compose_with(a);
    assert!(composed.dst() == a.dst());
    assert!(composed.src() == a.src());
    let p = steps(1, [1, -2, 3]);
    assert_eq!(composed.transform(p).coordinates, a.transform(p).coordinates);

    let round = a.invert().compose_with(a);
    assert!(round.dst() == a.src());
    assert!(round.src() == a.src());
    assert_eq!(round.transform(p).coordinates, p.coordinates);
}

#[test]
fn composition_leads_from_the_source_of_the_second() {
    let a = shift(5, 1, [7, 8, 9]);
    let b: Transform<CoordinateFrameA, CoordinateFrameC, R3, Steps> = Transform::new(
        CoordinateSystem::at_time(1),
        CoordinateSystem::at_time(0),
        Steps([1, 1, 1]),
    );
    let composed = a.compose_with(b);
    assert_eq!(composed.dst().frame.time, 5);
    assert_eq!(composed.src().frame.time, 0);
    let p = ManifoldElement::<CoordinateFrameC, R3, Steps>::new(composed.src(), Steps([0, 0, 0]));
    assert_eq!(composed.transform(p).coordinates, Steps([8, 9, 10]));
    assert_eq!(a.transform(b.transform(p)).coordinates, Steps([8, 9, 10]));
}

#[test]
fn a_point_differing_only_in_its_instant_is_refused() {
    let t = shift(5, 1, [7, 8, 9]);
    let p = steps(2, [1, -2, 3]);
    assert!(t.src() != p.coordinate_system());
    let refused = t.try_transform(p);
    assert!(matches!(refused, Err(FrameMismatch { expected: 1, found: 2 })));

    let accepted = t.try_transform(steps(1, [1, -2, 3]));
    assert!(matches!(accepted, Ok(image) if image.coordinates == Steps([8, 6, 12])));
}

#[test]
fn composing_across_instants_is_refused() {
    let a = shift(5, 1, [7, 8, 9]);
    let b: Transform<CoordinateFrameA, CoordinateFrameC, R3, Steps> = Transform::new(
        CoordinateSystem::at_time(3),
        CoordinateSystem::at_time(0),
        Steps([1, 1, 1]),
    );
    assert!(matches!(a.try_compose_with(b), Err(FrameMismatch { expected: 1, found: 3 })));
}
