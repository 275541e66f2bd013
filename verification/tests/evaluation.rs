use sdf_engine::eval::{
    classify, distance_at, eval, field_for, Field, Operator, Point3, Primitive, Solid,
};
use sdf_engine::scene::{Param, SceneNode, TypeTag, HALF_BITS, UNIT_BITS};

fn node(tag: TypeTag) -> SceneNode {
    SceneNode { tag, params: Vec::new(), a: None, b: None, child: None, children: Vec::new() }
}

fn leaf(name: &str) -> SceneNode {
    node(TypeTag::Named(name.to_string()))
}

fn sphere(radius: f64) -> SceneNode {
    let mut t = leaf("Sphere");
    t.params.push(Param { name: "radius".to_string(), bits: radius.to_bits() });
    t
}

fn binary(name: &str, a: SceneNode, b: SceneNode) -> SceneNode {
    let mut t = leaf(name);
    t.a = Some(Box::new(a));
    t.b = Some(Box::new(b));
    t
}

fn pt(x: f32, y: f32, z: f32) -> Point3<f32> {
    Point3 { x, y, z }
}

fn metric(solid: Solid, p: Point3<f32>) -> f32 {
    match solid {
        Solid::Sphere { radius } => {
            (p.x * p.x + p.y * p.y + p.z * p.z).sqrt() - f64::from_bits(radius) as f32
        }
        Solid::Box3d { half_extent } => {
            let h = f64::from_bits(half_extent) as f32;
            let q = [p.x.abs() - h, p.y.abs() - h, p.z.abs() - h];
            (q[0].max(0.0).powi(2) + q[1].max(0.0).powi(2) + q[2].max(0.0).powi(2)).sqrt()
                + q[0].max(q[1]).max(q[2]).min(0.0)
        }
    }
}

fn combine(operator: Operator, a: f32, b: f32) -> f32 {
    match operator {
        Operator::Union => a.min(b),
        Operator::Intersection => a.max(b),
        Operator::Subtraction => a.max(-b),
    }
}

fn distances(tree: &SceneNode, points: &Vec<Point3<f32>>) -> Vec<f32> {
    eval(tree, points, "compiled".to_string(), metric, combine).distances
}

fn is_unit_sphere(f: &Field) -> bool {
    matches!(f, Field::Solid(Solid::Sphere { radius }) if *radius == UNIT_BITS)
}

#[test]
fn sphere_at_the_origin_is_minus_the_radius() {
    for r in [0.25f64, 1.0, 2.0, 17.5] {
        let d = distances(&sphere(r), &vec![pt(0.0, 0.0, 0.0)]);
        assert_eq!(d.len(), 1);
        assert!((d[0] + r as f32).abs() < 1e-6);
    }
}

#[test]
fn sphere_without_a_radius_is_the_unit_sphere() {
    let d = distances(&leaf("Sphere"), &vec![pt(3.0, 0.0, 4.0), pt(0.0, 1.0, 0.0)]);
    assert_eq!(d, vec![4.0, 0.0]);
    assert!(is_unit_sphere(&field_for(&leaf("Sphere"))));
}

#[test]
fn plane_gives_the_height_of_the_point() {
    let points = vec![pt(1.5, -2.25, 8.0), pt(-100.0, 0.0, 3.0), pt(0.0, 7.125, -1.0)];
    let d = distances(&leaf("Plane"), &points);
    assert_eq!(d, vec![-2.25, 0.0, 7.125]);
    assert!(matches!(field_for(&leaf("Plane")), Field::Plane));
}

#[test]
fn plane_hands_back_the_very_bits_of_y() {
    let y = f32::from_bits(0x7fc0_1234);
    let d = distances(&leaf("Plane"), &vec![pt(0.0, y, 0.0)]);
    assert_eq!(d[0].to_bits(), 0x7fc0_1234);
}

#[test]
fn plane_never_asks_for_arithmetic() {
    let r = eval(
        &leaf("Plane"),
        &vec![pt(1.0, 2.0, 3.0)],
        "compiled".to_string(),
        |_: Solid, _: Point3<f32>| -> f32 { panic!("no solid") },
        |_: Operator, _: f32, _: f32| -> f32 { panic!("no operator") },
    );
    assert_eq!(r.distances, vec![2.0]);
}

#[test]
fn box_has_half_extent_one_half() {
    assert!(matches!(
        field_for(&leaf("Box3d")),
        Field::Solid(Solid::Box3d { half_extent }) if half_extent == HALF_BITS
    ));
    let d = distances(&leaf("Box3d"), &vec![pt(0.0, 0.0, 0.0), pt(1.5, 0.0, 0.0), pt(0.5, 0.5, 0.5)]);
    assert_eq!(d, vec![-0.5, 1.0, 0.0]);
}

#[test]
fn an_unknown_name_falls_back_to_the_unit_sphere() {
    let mut t = leaf("Torus");
    t.params.push(Param { name: "radius".to_string(), bits: 5.0f64.to_bits() });
    assert_eq!(classify(&t), Primitive::Unsupported);
    assert!(is_unit_sphere(&field_for(&t)));
    let d = distances(&t, &vec![pt(0.0, 0.0, 0.0), pt(0.0, 0.0, 2.0)]);
    assert_eq!(d, vec![-1.0, 1.0]);
}

#[test]
fn a_root_without_a_type_is_a_sphere_of_its_own_radius() {
    let mut t = node(TypeTag::Missing);
    t.params.push(Param { name: "radius".to_string(), bits: 3.0f64.to_bits() });
    assert_eq!(classify(&t), Primitive::Sphere);
    assert!(matches!(
        field_for(&t),
        Field::Solid(Solid::Sphere { radius }) if f64::from_bits(radius) == 3.0
    ));
    assert_eq!(distances(&t, &vec![pt(0.0, 0.0, 0.0)]), vec![-3.0]);
}

#[test]
fn names_are_told_apart_exactly() {
    assert_eq!(classify(&leaf("Sphere")), Primitive::Sphere);
    assert_eq!(classify(&leaf("Box3d")), Primitive::Box3d);
    assert_eq!(classify(&leaf("Plane")), Primitive::Plane);
    assert_eq!(classify(&leaf("Union")), Primitive::Union);
    assert_eq!(classify(&leaf("Intersection")), Primitive::Intersection);
    assert_eq!(classify(&leaf("Subtraction")), Primitive::Subtraction);
    assert_eq!(classify(&leaf("sphere")), Primitive::Unsupported);
    assert_eq!(classify(&leaf("Plane ")), Primitive::Unsupported);
    assert_eq!(classify(&leaf("SmoothUnion")), Primitive::Unsupported);
    assert_eq!(classify(&leaf("Translate")), Primitive::Unsupported);
    assert_eq!(classify(&leaf("")), Primitive::Unsupported);
}

#[test]
fn union_is_the_smaller_of_the_two_distances() {
    let t = binary("Union", sphere(1.0), leaf("Plane"));
    let points = vec![pt(0.0, 0.0, 0.0), pt(0.0, 5.0, 0.0), pt(3.0, -2.0, 4.0), pt(0.0, 0.5, 0.0)];
    assert_eq!(distances(&t, &points), vec![-1.0, 4.0, -2.0, -0.5]);
}

#[test]
fn intersection_is_the_larger_of_the_two_distances() {
    let t = binary("Intersection", sphere(2.0), leaf("Plane"));
    let points = vec![pt(0.0, 0.0, 0.0), pt(0.0, -1.0, 0.0), pt(0.0, 3.0, 0.0), pt(6.0, -1.0, 8.0)];
    let d = distances(&t, &points);
    assert_eq!(d[0], 0.0);
    assert_eq!(d[1], -1.0);
    assert_eq!(d[2], 3.0);
    assert!((d[3] - ((101.0f32).sqrt() - 2.0)).abs() < 1e-6);
}

#[test]
fn subtraction_takes_the_second_away_from_the_first() {
    let t = binary("Subtraction", sphere(2.0), sphere(1.0));
    let points = vec![pt(0.0, 0.0, 0.0), pt(1.5, 0.0, 0.0), pt(3.0, 0.0, 0.0)];
    assert_eq!(distances(&t, &points), vec![1.0, -0.5, 1.0]);
}

#[test]
fn the_first_operand_is_the_child_in_a() {
    let t = binary("Subtraction", leaf("Plane"), sphere(1.0));
    assert_eq!(distances(&t, &vec![pt(0.0, -3.0, 0.0)]), vec![-2.0]);
    let t = binary("Subtraction", sphere(1.0), leaf("Plane"));
    assert_eq!(distances(&t, &vec![pt(0.0, -3.0, 0.0)]), vec![3.0]);
}

#[test]
fn operators_nest() {
    let inner = binary("Union", sphere(1.0), leaf("Box3d"));
    let t = binary("Intersection", inner, leaf("Plane"));
    match field_for(&t) {
        Field::Combine(Operator::Intersection, a, b) => {
            assert!(matches!(*a, Field::Combine(Operator::Union, _, _)));
            assert!(matches!(*b, Field::Plane));
        }
        _ => panic!("an operator with two children combines them"),
    }
    let points = vec![pt(0.0, 0.0, 0.0), pt(0.0, -0.75, 0.0), pt(0.0, 4.0, 0.0)];
    assert_eq!(distances(&t, &points), vec![0.0, -0.25, 4.0]);
}

#[test]
fn an_operator_with_an_unknown_child_combines_the_unit_sphere() {
    let t = binary("Union", leaf("Torus"), leaf("Plane"));
    assert_eq!(distances(&t, &vec![pt(0.0, 5.0, 0.0), pt(0.0, -5.0, 0.0)]), vec![4.0, -5.0]);
}

#[test]
fn an_operator_that_lacks_a_child_is_the_unit_sphere() {
    let mut only_a = leaf("Union");
    only_a.a = Some(Box::new(leaf("Plane")));
    let mut only_b = leaf("Intersection");
    only_b.b = Some(Box::new(leaf("Plane")));
    let mut elsewhere = leaf("Subtraction");
    elsewhere.child = Some(Box::new(leaf("Plane")));
    elsewhere.children = vec![leaf("Plane"), leaf("Plane")];
    for t in [only_a, only_b, elsewhere, leaf("Union")] {
        assert!(is_unit_sphere(&field_for(&t)));
        assert_eq!(distances(&t, &vec![pt(0.0, 0.0, 0.0), pt(0.0, 3.0, 0.0)]), vec![-1.0, 2.0]);
    }
}

#[test]
fn a_field_is_evaluated_point_by_point() {
    let field = field_for(&binary("Union", sphere(1.0), leaf("Plane")));
    assert_eq!(distance_at(&field, pt(0.0, 0.0, 0.0), &metric, &combine), -1.0);
    assert_eq!(distance_at(&field, pt(0.0, 9.0, 0.0), &metric, &combine), 8.0);
}

#[test]
fn no_points_give_no_distances() {
    let r = eval(&leaf("Sphere"), &Vec::new(), "interpreted".to_string(), metric, combine);
    assert!(r.distances.is_empty());
    assert_eq!(r.point_count, 0);
    assert_eq!(r.mode, "interpreted");
}

#[test]
fn one_distance_per_point_in_order() {
    let points: Vec<Point3<f32>> = (0..257).map(|i| pt(i as f32, 0.0, 0.0)).collect();
    let r = eval(&sphere(2.0), &points, "compiled".to_string(), metric, combine);
    assert_eq!(r.distances.len(), 257);
    assert_eq!(r.point_count, 257);
    for (i, d) in r.distances.iter().enumerate() {
        assert_eq!(*d, i as f32 - 2.0);
    }
}

#[test]
fn each_request_gets_the_distances_of_its_own_points() {
    let tree = leaf("Plane");
    let sets: Vec<Vec<Point3<f32>>> = (0..8)
        .map(|k| (0..16).map(|i| pt(0.0, (k * 100 + i) as f32, 0.0)).collect())
        .collect();
    let answers: Vec<Vec<f32>> = sets.iter().map(|s| distances(&tree, s)).collect();
    for (k, answer) in answers.iter().enumerate() {
        let expected: Vec<f32> = (0..16).map(|i| (k * 100 + i) as f32).collect();
        assert_eq!(*answer, expected);
    }
}
