use sdf_engine::eval::{eval, Operator, Point3, Solid};
use sdf_engine::json::{get, parse_scene, Json};
use sdf_engine::scene::{
    checked_count_nodes, collect_types, count_nodes, radius_bits, tree_depth, TypeTag, UNIT_BITS,
};
use sdf_engine::validate::validate;

fn text(s: &str) -> Json {
    Json::Text(s.to_string())
}

fn number(x: f64) -> Json {
    Json::Number(x.to_bits())
}

fn object(members: Vec<(&str, Json)>) -> Json {
    Json::Object(members.into_iter().map(|(k, v)| (k.to_string(), v)).collect())
}

fn typed(name: &str) -> Json {
    object(vec![("type", text(name))])
}

#[test]
fn a_typed_object_is_a_leaf_of_that_type() {
    let n = parse_scene(&typed("Sphere"));
    assert!(matches!(&n.tag, TypeTag::Named(s) if s == "Sphere"));
    assert!(n.params.is_empty());
    assert!(n.a.is_none() && n.b.is_none() && n.child.is_none());
    assert!(n.children.is_empty());
    assert_eq!(count_nodes(&n), 1);
    assert_eq!(tree_depth(&n), 1);
}

#[test]
fn a_type_is_missing_or_not_text() {
    assert!(matches!(parse_scene(&object(vec![])).tag, TypeTag::Missing));
    assert!(matches!(parse_scene(&object(vec![("type", number(5.0))])).tag, TypeTag::Unnamed));
    assert!(matches!(parse_scene(&object(vec![("type", Json::Null)])).tag, TypeTag::Unnamed));
    assert!(matches!(parse_scene(&object(vec![("Type", text("Sphere"))])).tag, TypeTag::Missing));
}

#[test]
fn values_that_are_no_objects_are_untyped_leaves() {
    for j in [
        Json::Null,
        Json::Bool(true),
        number(3.0),
        text("Sphere"),
        Json::Array(vec![typed("Sphere"), typed("Plane")]),
    ] {
        let n = parse_scene(&j);
        assert!(matches!(n.tag, TypeTag::Missing));
        assert_eq!(count_nodes(&n), 1);
        assert_eq!(tree_depth(&n), 1);
        assert!(collect_types(&n).is_empty());
    }
}

#[test]
fn children_come_from_the_three_slots_and_the_array() {
    let j = object(vec![
        ("children", Json::Array(vec![typed("K0"), number(1.0), typed("K1")])),
        ("child", typed("C")),
        ("type", text("Root")),
        ("b", object(vec![("type", text("B")), ("a", typed("BA"))])),
        ("a", Json::Null),
        ("left", typed("Ignored")),
    ]);
    let n = parse_scene(&j);
    assert_eq!(count_nodes(&n), 8);
    assert_eq!(tree_depth(&n), 3);
    assert_eq!(collect_types(&n), vec!["Root", "B", "BA", "C", "K0", "K1"]);
    assert_eq!(checked_count_nodes(&n), Some(8));
}

#[test]
fn children_that_are_no_array_are_ignored() {
    let j = object(vec![("type", text("Group")), ("children", typed("Sphere"))]);
    let n = parse_scene(&j);
    assert!(n.children.is_empty());
    assert_eq!(count_nodes(&n), 1);
}

#[test]
fn only_numeric_parameters_are_kept() {
    let j = object(vec![
        ("type", text("Sphere")),
        (
            "params",
            object(vec![("label", text("big")), ("radius", number(2.5)), ("height", number(4.0))]),
        ),
    ]);
    let n = parse_scene(&j);
    let names: Vec<&str> = n.params.iter().map(|p| p.name.as_str()).collect();
    assert_eq!(names, vec!["radius", "height"]);
    assert_eq!(f64::from_bits(radius_bits(&n)), 2.5);
}

#[test]
fn a_radius_that_is_no_number_counts_as_none() {
    let j = object(vec![("type", text("Sphere")), ("params", object(vec![("radius", text("2"))]))]);
    assert_eq!(radius_bits(&parse_scene(&j)), UNIT_BITS);
    let j = object(vec![("type", text("Sphere")), ("params", number(2.0))]);
    assert_eq!(radius_bits(&parse_scene(&j)), UNIT_BITS);
    let j = object(vec![("type", text("Sphere")), ("radius", number(2.0))]);
    assert_eq!(radius_bits(&parse_scene(&j)), UNIT_BITS);
}

#[test]
fn members_are_found_by_their_key() {
    let j = object(vec![("a", number(1.0)), ("b", number(2.0)), ("a", number(3.0))]);
    assert!(matches!(get(&j, "a"), Some(Json::Number(bits)) if f64::from_bits(*bits) == 1.0));
    assert!(matches!(get(&j, "b"), Some(Json::Number(bits)) if f64::from_bits(*bits) == 2.0));
    assert!(get(&j, "c").is_none());
    assert!(get(&Json::Array(vec![number(1.0)]), "a").is_none());
    assert!(get(&text("a"), "a").is_none());
}

#[test]
fn a_described_sphere_is_evaluated_with_its_radius() {
    let j = object(vec![("type", text("Sphere")), ("params", object(vec![("radius", number(3.0))]))]);
    let tree = parse_scene(&j);
    let points = vec![Point3 { x: 0.0f32, y: 0.0, z: 0.0 }];
    let r = eval(
        &tree,
        &points,
        "compiled".to_string(),
        |solid: Solid, p: Point3<f32>| match solid {
            Solid::Sphere { radius } => {
                (p.x * p.x + p.y * p.y + p.z * p.z).sqrt() - f64::from_bits(radius) as f32
            }
            _ => panic!("a sphere was described"),
        },
        |_: Operator, _: f32, _: f32| -> f32 { panic!("no operator was described") },
    );
    assert_eq!(r.distances, vec![-3.0]);
}

#[test]
fn a_described_tree_is_validated() {
    let good = object(vec![("type", text("Union")), ("a", typed("Sphere")), ("b", typed("Box3d"))]);
    let r = validate(&parse_scene(&good));
    assert!(r.valid);
    assert!(r.errors.is_empty());
    assert_eq!(r.node_count, 3);
    assert_eq!(r.depth, 2);
    let bad = object(vec![("a", typed("Sphere"))]);
    let r = validate(&parse_scene(&bad));
    assert!(!r.valid);
    assert_eq!(r.errors.len(), 1);
    assert_eq!(r.node_count, 2);
    assert_eq!(r.node_types, vec!["Sphere"]);
}
