//! Distance evaluation: which field a scene stands for, and the signed
//! distance of each sample point to it.
//!
//! The crate is generic in the scalar type `S` of coordinates and distances
//! and does no arithmetic on it. It decides which field a tree stands for,
//! walks that field for every point, and evaluates the plane itself, by
//! picking a coordinate. The sphere and the box need real arithmetic, and so
//! does combining two distances; the caller supplies both, as `metric` and
//! `combine`.

use vstd::prelude::*;
use crate::scene::{dispatch_name, node_name, radius_bits, radius_of, SceneNode, HALF_BITS, UNIT_BITS};
use crate::text::str_eq;

verus! {

/// A sample point.
#[derive(Debug)]
pub struct Point3<S> {
    pub x: S,
    pub y: S,
    pub z: S,
}

impl<S: Copy> Clone for Point3<S> {
    fn clone(&self) -> (p: Self)
        ensures
            p == *self,
    {
        *self
    }
}

impl<S: Copy> Copy for Point3<S> {

}

/// What a type name is evaluated as.
#[derive(Clone, Copy, Debug, PartialEq, Eq, Structural)]
pub enum Primitive {
    Sphere,
    Box3d,
    Plane,
    Union,
    Intersection,
    Subtraction,
    /// Any other name. Such a node is evaluated as the unit sphere.
    Unsupported,
}

/// A solid about the origin with its parameter, as binary64 bits.
#[derive(Clone, Copy, Debug, PartialEq, Eq, Structural)]
pub enum Solid {
    /// Sphere: the distance of `p` is `|p| - radius`.
    Sphere { radius: u64 },
    /// Box with the same half extent `h` along each axis: with
    /// `q = |p| - h` componentwise, the distance of `p` is
    /// `|max(q, 0)| + min(max(q.x, q.y, q.z), 0)`.
    Box3d { half_extent: u64 },
}

/// How the distances `a` and `b` to two fields combine into one.
#[derive(Clone, Copy, Debug, PartialEq, Eq, Structural)]
pub enum Operator {
    /// `min(a, b)`.
    Union,
    /// `max(a, b)`.
    Intersection,
    /// `max(a, -b)`.
    Subtraction,
}

/// A distance field.
#[derive(Debug)]
pub enum Field {
    /// A solid about the origin.
    Solid(Solid),
    /// The horizontal plane through the origin: the distance of `p` is
    /// `p.y`.
    Plane,
    /// Two fields combined: both are evaluated at the same point, the first
    /// as `a` and the second as `b`.
    Combine(Operator, Box<Field>, Box<Field>),
}

/// The primitive that a type name selects.
pub open spec fn primitive_of(name: Seq<char>) -> Primitive {
    if name == "Sphere"@ {
        Primitive::Sphere
    } else if name == "Box3d"@ {
        Primitive::Box3d
    } else if name == "Plane"@ {
        Primitive::Plane
    } else if name == "Union"@ {
        Primitive::Union
    } else if name == "Intersection"@ {
        Primitive::Intersection
    } else if name == "Subtraction"@ {
        Primitive::Subtraction
    } else {
        Primitive::Unsupported
    }
}

/// The operator that a primitive stands for, if it is one.
pub open spec fn operator_of(p: Primitive) -> Option<Operator> {
    match p {
        Primitive::Union => Some(Operator::Union),
        Primitive::Intersection => Some(Operator::Intersection),
        Primitive::Subtraction => Some(Operator::Subtraction),
        _ => None,
    }
}

/// The unit sphere, which stands in for whatever cannot be evaluated.
pub open spec fn unit_sphere() -> Field {
    Field::Solid(Solid::Sphere { radius: UNIT_BITS })
}

/// The field that a scene is evaluated as.
///
/// A sphere has the radius of its node, the box the half extent one half.
/// An operator with a child in each of the slots `a` and `b` combines the
/// fields of the two. Everything else is the unit sphere: a name that is
/// not supported, and an operator that lacks one of its two children.
pub open spec fn field_of(tree: SceneNode) -> Field
    decreases tree,
{
    match primitive_of(dispatch_name(tree.tag)) {
        Primitive::Sphere => Field::Solid(Solid::Sphere { radius: radius_of(tree) }),
        Primitive::Box3d => Field::Solid(Solid::Box3d { half_extent: HALF_BITS }),
        Primitive::Plane => Field::Plane,
        Primitive::Unsupported => unit_sphere(),
        operator => match (tree.a, tree.b) {
            (Some(a), Some(b)) => Field::Combine(
                operator_of(operator)->0,
                Box::new(field_of(*a)),
                Box::new(field_of(*b)),
            ),
            _ => unit_sphere(),
        },
    }
}

/// The primitive that the root of `tree` selects.
pub fn classify(tree: &SceneNode) -> (p: Primitive)
    ensures
        p == primitive_of(dispatch_name(tree.tag)),
{
    let name = node_name(tree);
    if str_eq(name, "Sphere") {
        Primitive::Sphere
    } else if str_eq(name, "Box3d") {
        Primitive::Box3d
    } else if str_eq(name, "Plane") {
        Primitive::Plane
    } else if str_eq(name, "Union") {
        Primitive::Union
    } else if str_eq(name, "Intersection") {
        Primitive::Intersection
    } else if str_eq(name, "Subtraction") {
        Primitive::Subtraction
    } else {
        Primitive::Unsupported
    }
}

fn combined(operator: Operator, tree: &SceneNode) -> (f: Field)
    requires
        operator_of(primitive_of(dispatch_name(tree.tag))) == Some(operator),
    ensures
        f == field_of(*tree),
    decreases *tree, 0nat,
{
    match (&tree.a, &tree.b) {
        (Some(a), Some(b)) => Field::Combine(
            operator,
            Box::new(field_for(a)),
            Box::new(field_for(b)),
        ),
        _ => Field::Solid(Solid::Sphere { radius: UNIT_BITS }),
    }
}

/// The field that `tree` is evaluated as.
pub fn field_for(tree: &SceneNode) -> (f: Field)
    ensures
        f == field_of(*tree),
    decreases *tree, 1nat,
{
    match classify(tree) {
        Primitive::Sphere => Field::Solid(Solid::Sphere { radius: radius_bits(tree) }),
        Primitive::Box3d => Field::Solid(Solid::Box3d { half_extent: HALF_BITS }),
        Primitive::Plane => Field::Plane,
        Primitive::Union => combined(Operator::Union, tree),
        Primitive::Intersection => combined(Operator::Intersection, tree),
        Primitive::Subtraction => combined(Operator::Subtraction, tree),
        Primitive::Unsupported => Field::Solid(Solid::Sphere { radius: UNIT_BITS }),
    }
}

/// What one evaluation yields: one distance per point, in the order of the
/// points, their number, and the mode as asked for.
pub struct EvalResp<S> {
    pub distances: Vec<S>,
    pub point_count: usize,
    pub mode: String,
}

/// Whether `d` is a distance that evaluation may give for the point `p` in
/// `field`: on the plane the `y` coordinate itself; for a solid what
/// `metric` gives for the solid and the point; for a combination what
/// `combine` gives for the operator and a distance of `p` in each of the
/// two fields.
pub open spec fn distance_ok<S, M: Fn(Solid, Point3<S>) -> S, C: Fn(Operator, S, S) -> S>(
    field: Field,
    metric: M,
    combine: C,
    p: Point3<S>,
    d: S,
) -> bool
    decreases field,
{
    match field {
        Field::Plane => d == p.y,
        Field::Solid(solid) => call_ensures(metric, (solid, p), d),
        Field::Combine(operator, a, b) => exists|da: S, db: S|
            {
                &&& distance_ok(*a, metric, combine, p, da)
                &&& distance_ok(*b, metric, combine, p, db)
                &&& #[trigger] call_ensures(combine, (operator, da, db), d)
            },
    }
}

/// Whether `metric` and `combine` can be called on whatever they are given.
pub open spec fn total<S, M: Fn(Solid, Point3<S>) -> S, C: Fn(Operator, S, S) -> S>(
    metric: M,
    combine: C,
) -> bool {
    &&& forall|solid: Solid, p: Point3<S>| call_requires(metric, (solid, p))
    &&& forall|operator: Operator, a: S, b: S| call_requires(combine, (operator, a, b))
}

/// The distance of `p` in `field`.
pub fn distance_at<S: Copy, M: Fn(Solid, Point3<S>) -> S, C: Fn(Operator, S, S) -> S>(
    field: &Field,
    p: Point3<S>,
    metric: &M,
    combine: &C,
) -> (d: S)
    requires
        total(*metric, *combine),
    ensures
        distance_ok(*field, *metric, *combine, p, d),
    decreases *field,
{
    match field {
        Field::Plane => p.y,
        Field::Solid(solid) => metric(*solid, p),
        Field::Combine(operator, a, b) => {
            let da = distance_at(a, p, metric, combine);
            let db = distance_at(b, p, metric, combine);
            let d = combine(*operator, da, db);
            assert(call_ensures(*combine, (*operator, da, db), d));
            d
        },
    }
}

/// Evaluates the field of `tree` at each of `points`.
///
/// The answer holds exactly one distance per point, in the order of the
/// points, also when there is none. Each distance depends on the scene and
/// on its own point only. `mode` is handed back as it came.
pub fn eval<S: Copy, M: Fn(Solid, Point3<S>) -> S, C: Fn(Operator, S, S) -> S>(
    tree: &SceneNode,
    points: &Vec<Point3<S>>,
    mode: String,
    metric: M,
    combine: C,
) -> (resp: EvalResp<S>)
    requires
        total(metric, combine),
    ensures
        resp.distances@.len() == points@.len(),
        resp.point_count == points@.len(),
        resp.mode@ == mode@,
        forall|i: int|
            0 <= i < points@.len() ==> distance_ok(
                field_of(*tree),
                metric,
                combine,
                points@[i],
                #[trigger] resp.distances@[i],
            ),
{
    let field = field_for(tree);
    let mut distances: Vec<S> = Vec::new();
    let mut i: usize = 0;
    while i < points.len()
        invariant
            i <= points.len(),
            field == field_of(*tree),
            distances@.len() == i,
            total(metric, combine),
            forall|k: int|
                0 <= k < i ==> distance_ok(
                    field,
                    metric,
                    combine,
                    points@[k],
                    #[trigger] distances@[k],
                ),
        decreases points.len() - i,
    {
        let d = distance_at(&field, points[i], &metric, &combine);
        distances.push(d);
        i = i + 1;
    }
    let point_count = distances.len();
    EvalResp { distances, point_count, mode }
}

/// Which field each node stands for, going by its name: a node without a
/// textual type and a node called `Sphere` stand for the sphere of their
/// own radius, `Box3d` for the box of half extent one half, `Plane` for the
/// plane, and every name that is none of the six supported ones for the
/// unit sphere.
pub proof fn lemma_dispatch(tree: SceneNode)
    ensures
        !(tree.tag is Named) ==> field_of(tree) == Field::Solid(
            Solid::Sphere { radius: radius_of(tree) },
        ),
        dispatch_name(tree.tag) == "Sphere"@ ==> field_of(tree) == Field::Solid(
            Solid::Sphere { radius: radius_of(tree) },
        ),
        dispatch_name(tree.tag) == "Box3d"@ ==> field_of(tree) == Field::Solid(
            Solid::Box3d { half_extent: HALF_BITS },
        ),
        dispatch_name(tree.tag) == "Plane"@ ==> field_of(tree) == Field::Plane,
        primitive_of(dispatch_name(tree.tag)) is Unsupported ==> field_of(tree) == unit_sphere(),
{
    lemma_names_differ();
}

/// The six supported names are six different names.
pub proof fn lemma_names_differ()
    ensures
        primitive_of("Sphere"@) == Primitive::Sphere,
        primitive_of("Box3d"@) == Primitive::Box3d,
        primitive_of("Plane"@) == Primitive::Plane,
        primitive_of("Union"@) == Primitive::Union,
        primitive_of("Intersection"@) == Primitive::Intersection,
        primitive_of("Subtraction"@) == Primitive::Subtraction,
{
    reveal_strlit("Sphere");
    reveal_strlit("Box3d");
    reveal_strlit("Plane");
    reveal_strlit("Union");
    reveal_strlit("Intersection");
    reveal_strlit("Subtraction");
    assert("Sphere"@.len() == 6);
    assert("Box3d"@.len() == 5);
    assert("Plane"@.len() == 5);
    assert("Union"@.len() == 5);
    assert("Intersection"@.len() == 12);
    assert("Subtraction"@.len() == 11);
    assert("Box3d"@[0] == 'B');
    assert("Plane"@[0] == 'P');
    assert("Union"@[0] == 'U');
}

/// An operator with both children stands for the combination of the
/// fields of the two, the child in `a` first; an operator that lacks one of
/// them stands for the unit sphere.
pub proof fn lemma_operator(tree: SceneNode)
    requires
        operator_of(primitive_of(dispatch_name(tree.tag))) is Some,
    ensures
        tree.a is Some && tree.b is Some ==> field_of(tree) == Field::Combine(
            operator_of(primitive_of(dispatch_name(tree.tag)))->0,
            Box::new(field_of(*tree.a->0)),
            Box::new(field_of(*tree.b->0)),
        ),
        tree.a is None || tree.b is None ==> field_of(tree) == unit_sphere(),
{
}

/// On a root called `Plane`, the distance of a point is its `y` coordinate,
/// whatever the other two coordinates are and whatever `metric` and
/// `combine` are.
pub proof fn lemma_plane_distance<S, M: Fn(Solid, Point3<S>) -> S, C: Fn(Operator, S, S) -> S>(
    tree: SceneNode,
    metric: M,
    combine: C,
    p: Point3<S>,
    d: S,
)
    requires
        dispatch_name(tree.tag) == "Plane"@,
        distance_ok(field_of(tree), metric, combine, p, d),
    ensures
        d == p.y,
{
    lemma_dispatch(tree);
}

/// Whether `metric` and `combine` give at most one result for what they
/// are given.
pub open spec fn single_valued<S, M: Fn(Solid, Point3<S>) -> S, C: Fn(Operator, S, S) -> S>(
    metric: M,
    combine: C,
) -> bool {
    &&& forall|solid: Solid, p: Point3<S>, d1: S, d2: S|
        call_ensures(metric, (solid, p), d1) && call_ensures(metric, (solid, p), d2) ==> d1 == d2
    &&& forall|operator: Operator, a: S, b: S, d1: S, d2: S|
        call_ensures(combine, (operator, a, b), d1) && call_ensures(combine, (operator, a, b), d2)
            ==> d1 == d2
}

/// A distance belongs to its own point: where two evaluations of the same
/// field, on any two lists of points, meet the same point, they give it the
/// same distance, whatever else the two lists hold.
pub proof fn lemma_distance_of_own_point<
    S,
    M: Fn(Solid, Point3<S>) -> S,
    C: Fn(Operator, S, S) -> S,
>(field: Field, metric: M, combine: C, p: Point3<S>, d1: S, d2: S)
    requires
        single_valued(metric, combine),
        distance_ok(field, metric, combine, p, d1),
        distance_ok(field, metric, combine, p, d2),
    ensures
        d1 == d2,
    decreases field,
{
    match field {
        Field::Combine(operator, a, b) => {
            let (a1, b1) = choose|da: S, db: S|
                {
                    &&& distance_ok(*a, metric, combine, p, da)
                    &&& distance_ok(*b, metric, combine, p, db)
                    &&& #[trigger] call_ensures(combine, (operator, da, db), d1)
                };
            let (a2, b2) = choose|da: S, db: S|
                {
                    &&& distance_ok(*a, metric, combine, p, da)
                    &&& distance_ok(*b, metric, combine, p, db)
                    &&& #[trigger] call_ensures(combine, (operator, da, db), d2)
                };
            lemma_distance_of_own_point(*a, metric, combine, p, a1, a2);
            lemma_distance_of_own_point(*b, metric, combine, p, b1, b2);
        },
        _ => {},
    }
}

} // verus!
