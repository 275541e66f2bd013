use sdf_engine::mesh::{
    clamp_resolution, export, mesh_generate, obj_text, tessellate, Face, GridVertex, MeshBuffer,
    VertexText, MAX_RESOLUTION,
};
use sdf_engine::scene::{Param, SceneNode, TypeTag};

fn leaf(name: &str) -> SceneNode {
    SceneNode {
        tag: TypeTag::Named(name.to_string()),
        params: Vec::new(),
        a: None,
        b: None,
        child: None,
        children: Vec::new(),
    }
}

fn position(v: GridVertex, res: usize, radius: u64) -> (f32, f32, f32) {
    let rad = f64::from_bits(radius) as f32;
    let phi = std::f32::consts::PI * v.ring as f32 / res as f32;
    let theta = 2.0 * std::f32::consts::PI * v.segment as f32 / res as f32;
    (rad * phi.sin() * theta.cos(), rad * phi.cos(), rad * phi.sin() * theta.sin())
}

fn render(v: GridVertex, res: usize, radius: u64) -> VertexText {
    let p = position(v, res, radius);
    VertexText { x: format!("{:.6}", p.0), y: format!("{:.6}", p.1), z: format!("{:.6}", p.2) }
}

fn never(_: GridVertex, _: usize, _: u64) -> VertexText {
    panic!("no text was asked for")
}

fn face_indices(text: &str) -> Vec<usize> {
    let mut out = Vec::new();
    for line in text.lines() {
        if let Some(rest) = line.strip_prefix("f ") {
            for word in rest.split(' ') {
                out.push(word.parse::<usize>().unwrap());
            }
        }
    }
    out
}

#[test]
fn resolution_is_clamped_to_the_ceiling() {
    assert_eq!(MAX_RESOLUTION, 64);
    assert_eq!(clamp_resolution(0), 0);
    assert_eq!(clamp_resolution(63), 63);
    assert_eq!(clamp_resolution(64), 64);
    assert_eq!(clamp_resolution(65), 64);
    assert_eq!(clamp_resolution(200), 64);
    assert_eq!(clamp_resolution(usize::MAX), 64);
}

#[test]
fn resolution_200_gives_the_lattice_of_64() {
    let r = mesh_generate(&leaf("Sphere"), 200, "obj".to_string(), render);
    assert_eq!(r.vertex_count, 65 * 65);
    assert_eq!(r.face_count, 2 * 64 * 64);
    assert_eq!(r.format, "obj");
    let text = r.data_text.unwrap();
    assert!(text.starts_with("# AI Modeler - Sphere\n# V:4225 F:8192\n"));
    assert_eq!(text.lines().filter(|l| l.starts_with("v ")).count(), 4225);
    assert_eq!(text.lines().filter(|l| l.starts_with("f ")).count(), 8192);
}

#[test]
fn every_face_index_in_the_text_names_a_vertex() {
    for res in [1usize, 2, 7, 64, 128] {
        let r = mesh_generate(&leaf("Sphere"), res, "obj".to_string(), render);
        let indices = face_indices(r.data_text.as_ref().unwrap());
        assert_eq!(indices.len(), 3 * r.face_count);
        assert!(indices.iter().all(|i| 1 <= *i && *i <= r.vertex_count));
        assert_eq!(*indices.iter().max().unwrap(), r.vertex_count);
        assert_eq!(*indices.iter().min().unwrap(), 1);
    }
}

#[test]
fn counts_follow_the_resolution() {
    for (res, vertices, faces) in [(0usize, 1usize, 0usize), (1, 4, 2), (2, 9, 8), (10, 121, 200)] {
        let r = mesh_generate(&leaf("Box3d"), res, "stl".to_string(), never);
        assert_eq!(r.vertex_count, vertices);
        assert_eq!(r.face_count, faces);
    }
}

#[test]
fn other_formats_get_no_text() {
    for format in ["stl", "glb", "OBJ", "", "obj "] {
        let r = mesh_generate(&leaf("Sphere"), 4, format.to_string(), never);
        assert!(r.data_text.is_none());
        assert_eq!(r.format, format);
        assert_eq!(r.vertex_count, 25);
        assert_eq!(r.face_count, 32);
    }
}

#[test]
fn the_text_of_resolution_one() {
    let r = mesh_generate(&leaf("Plane"), 1, "obj".to_string(), |v, res, radius| {
        assert_eq!(res, 1);
        assert_eq!(f64::from_bits(radius), 1.0);
        VertexText {
            x: format!("x{}", v.ring),
            y: format!("y{}", v.segment),
            z: "0.000000".to_string(),
        }
    });
    assert_eq!(
        r.data_text.unwrap(),
        "# AI Modeler - Plane\n# V:4 F:2\n\
         v x0 y0 0.000000\nv x0 y1 0.000000\nv x1 y0 0.000000\nv x1 y1 0.000000\n\
         f 1 3 2\nf 2 3 4\n"
    );
}

#[test]
fn the_text_has_six_decimals_of_the_sphere() {
    let mut tree = leaf("Sphere");
    tree.params.push(Param { name: "radius".to_string(), bits: 2.0f64.to_bits() });
    let r = mesh_generate(&tree, 2, "obj".to_string(), render);
    let text = r.data_text.unwrap();
    let lines: Vec<&str> = text.lines().collect();
    assert_eq!(lines[0], "# AI Modeler - Sphere");
    assert_eq!(lines[1], "# V:9 F:8");
    assert_eq!(lines[2], "v 0.000000 2.000000 0.000000");
    assert_eq!(lines[5], "v 2.000000 -0.000000 0.000000");
    assert_eq!(lines[11], "f 1 4 2");
    assert_eq!(lines[12], "f 2 4 5");
    assert_eq!(lines[18], "f 6 8 9");
    assert_eq!(lines.len(), 19);
}

#[test]
fn the_header_names_the_root_or_sphere() {
    let untyped = SceneNode {
        tag: TypeTag::Missing,
        params: Vec::new(),
        a: None,
        b: None,
        child: None,
        children: Vec::new(),
    };
    let r = mesh_generate(&untyped, 0, "obj".to_string(), render);
    assert!(r.data_text.unwrap().starts_with("# AI Modeler - Sphere\n# V:1 F:0\n"));
    let r = mesh_generate(&leaf("Gyroid"), 0, "obj".to_string(), render);
    assert!(r.data_text.unwrap().starts_with("# AI Modeler - Gyroid\n# V:1 F:0\n"));
}

#[test]
fn vertices_are_asked_for_in_lattice_order() {
    let r = mesh_generate(&leaf("Sphere"), 2, "obj".to_string(), |v, _, _| VertexText {
        x: v.ring.to_string(),
        y: v.segment.to_string(),
        z: String::new(),
    });
    let text = r.data_text.unwrap();
    let seen: Vec<&str> = text.lines().filter(|l| l.starts_with("v ")).collect();
    assert_eq!(
        seen,
        vec!["v 0 0 ", "v 0 1 ", "v 0 2 ", "v 1 0 ", "v 1 1 ", "v 1 2 ", "v 2 0 ", "v 2 1 ", "v 2 2 "]
    );
}

#[test]
fn tessellation_joins_each_cell_by_two_triangles() {
    let m = tessellate(2);
    assert_eq!(m.vertices.len(), 9);
    assert_eq!(m.vertices[0], GridVertex { ring: 0, segment: 0 });
    assert_eq!(m.vertices[5], GridVertex { ring: 1, segment: 2 });
    assert_eq!(m.vertices[8], GridVertex { ring: 2, segment: 2 });
    assert_eq!(
        m.faces,
        vec![
            Face { a: 0, b: 3, c: 1 },
            Face { a: 1, b: 3, c: 4 },
            Face { a: 1, b: 4, c: 2 },
            Face { a: 2, b: 4, c: 5 },
            Face { a: 3, b: 6, c: 4 },
            Face { a: 4, b: 6, c: 7 },
            Face { a: 4, b: 7, c: 5 },
            Face { a: 5, b: 7, c: 8 },
        ]
    );
}

#[test]
fn tessellation_keeps_every_face_inside_the_mesh() {
    for res in [0usize, 1, 3, 64, 1000] {
        let m = tessellate(res);
        let n = res.min(64) + 1;
        assert_eq!(m.vertices.len(), n * n);
        assert_eq!(m.faces.len(), 2 * (n - 1) * (n - 1));
        for f in &m.faces {
            assert!(f.a < m.vertices.len() && f.b < m.vertices.len() && f.c < m.vertices.len());
        }
    }
}

#[test]
fn obj_text_counts_indices_from_one() {
    let mesh = MeshBuffer {
        vertices: vec![
            VertexText { x: "0".into(), y: "0".into(), z: "0".into() },
            VertexText { x: "1".into(), y: "0".into(), z: "0".into() },
            VertexText { x: "0".into(), y: "1".into(), z: "0".into() },
        ],
        faces: vec![Face { a: 0, b: 1, c: 2 }, Face { a: 2, b: 1, c: 0 }],
    };
    assert_eq!(
        obj_text("Tri", &mesh),
        "# AI Modeler - Tri\n# V:3 F:2\nv 0 0 0\nv 1 0 0\nv 0 1 0\nf 1 2 3\nf 3 2 1\n"
    );
}

#[test]
fn export_answers_as_mesh_generate_does() {
    let a = mesh_generate(&leaf("Sphere"), 3, "obj".to_string(), render);
    let b = export(&leaf("Sphere"), 3, "obj".to_string(), render);
    assert_eq!(a.vertex_count, b.vertex_count);
    assert_eq!(a.face_count, b.face_count);
    assert_eq!(a.format, b.format);
    assert_eq!(a.data_text, b.data_text);
    assert_eq!(b.vertex_count, 16);
}
