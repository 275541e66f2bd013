use sdf_engine::catalog::{list_primitives, PrimInfo};
use sdf_engine::request::{d128, d_obj, d_wgsl, default_mode, health};

fn pairs(list: &[PrimInfo]) -> Vec<(&str, &str)> {
    list.iter().map(|e| (e.name.as_str(), e.category.as_str())).collect()
}

#[test]
fn the_catalog_lists_its_four_tables() {
    let c = list_primitives();
    assert_eq!(c.total, 37);
    assert_eq!(
        pairs(&c.primitives),
        vec![
            ("Sphere", "basic"),
            ("Box3d", "basic"),
            ("Cylinder", "basic"),
            ("Torus", "basic"),
            ("Plane", "basic"),
            ("Capsule", "basic"),
            ("Cone", "basic"),
            ("RoundedBox", "extended"),
            ("Ellipsoid", "extended"),
            ("Pyramid", "extended"),
            ("Octahedron", "platonic"),
            ("Tetrahedron", "platonic"),
            ("Gyroid", "tpms"),
            ("SchwarzP", "tpms"),
            ("Diamond", "tpms"),
        ]
    );
    assert_eq!(
        pairs(&c.operations),
        vec![
            ("Union", "standard"),
            ("Intersection", "standard"),
            ("Subtraction", "standard"),
            ("SmoothUnion", "smooth"),
            ("SmoothIntersection", "smooth"),
            ("SmoothSubtraction", "smooth"),
            ("ChamferUnion", "chamfer"),
            ("Xor", "special"),
            ("Morph", "special"),
        ]
    );
    assert_eq!(
        pairs(&c.transforms),
        vec![
            ("Translate", "spatial"),
            ("RotateEuler", "spatial"),
            ("Scale", "spatial"),
            ("ScaleNonUniform", "spatial"),
        ]
    );
    assert_eq!(
        pairs(&c.modifiers),
        vec![
            ("Twist", "deform"),
            ("Bend", "deform"),
            ("Repeat", "pattern"),
            ("RepeatFinite", "pattern"),
            ("Mirror", "pattern"),
            ("PolarRepeat", "pattern"),
            ("Noise", "surface"),
            ("Shell", "surface"),
            ("Onion", "surface"),
        ]
    );
}

#[test]
fn the_total_is_the_sum_of_the_tables() {
    let c = list_primitives();
    assert_eq!(
        c.total,
        c.primitives.len() + c.operations.len() + c.transforms.len() + c.modifiers.len()
    );
}

#[test]
fn the_catalog_is_the_same_on_every_call() {
    let a = list_primitives();
    let b = list_primitives();
    assert_eq!(pairs(&a.primitives), pairs(&b.primitives));
    assert_eq!(pairs(&a.modifiers), pairs(&b.modifiers));
}

#[test]
fn requests_default_as_documented() {
    assert_eq!(default_mode(), "compiled");
    assert_eq!(d128(), 128);
    assert_eq!(d_obj(), "obj");
    assert_eq!(d_wgsl(), "wgsl");
}

#[test]
fn health_reports_what_it_is_given() {
    let h = health("1.2.3", 77);
    assert_eq!(h.status, "ok");
    assert_eq!(h.version, "1.2.3");
    assert_eq!(h.uptime_secs, 77);
    assert_eq!(h.engine, "ALICE-SDF stub");
}
