use sdf_engine::error::EngineError;
use sdf_engine::scene::{SceneNode, TypeTag};
use sdf_engine::shader::{emit, parse_target, shader_transpile, Target};

fn node(tag: TypeTag) -> SceneNode {
    SceneNode { tag, params: Vec::new(), a: None, b: None, child: None, children: Vec::new() }
}

fn leaf(name: &str) -> SceneNode {
    node(TypeTag::Named(name.to_string()))
}

fn source(tree: &SceneNode, target: &str) -> String {
    match shader_transpile(tree, target.to_string()) {
        Ok(resp) => {
            assert_eq!(resp.target, target);
            resp.source
        }
        Err(_) => panic!("a known target is transpiled"),
    }
}

#[test]
fn glsl_source_carries_the_glsl_marker() {
    let s = source(&leaf("Sphere"), "glsl");
    assert!(s.contains("// GLSL"));
    assert!(s.contains("#version 450"));
    assert_eq!(
        s,
        "// GLSL - Sphere\n#version 450\nfloat sdf(vec3 p) { return length(p)-1.0; }"
    );
}

#[test]
fn wgsl_source_has_a_fragment_entry_point() {
    let s = source(&leaf("Union"), "wgsl");
    assert_eq!(
        s,
        "// WGSL - Union\nfn sdf_scene(p: vec3<f32>) -> f32 { return length(p) - 1.0; }\n@fragment fn fs(@location(0) wp: vec3<f32>) -> @location(0) vec4<f32> { let d = sdf_scene(wp); return vec4<f32>(vec3<f32>(0.5-d*0.5), 1.0); }"
    );
}

#[test]
fn hlsl_source_uses_float3() {
    let s = source(&leaf("Box3d"), "hlsl");
    assert_eq!(s, "// HLSL - Box3d\nfloat sdf(float3 p) { return length(p)-1.0; }");
}

#[test]
fn a_root_without_a_type_is_named_sphere() {
    assert!(source(&node(TypeTag::Missing), "glsl").starts_with("// GLSL - Sphere\n"));
    assert!(source(&node(TypeTag::Unnamed), "hlsl").starts_with("// HLSL - Sphere\n"));
}

#[test]
fn an_unknown_target_fails_and_is_named() {
    match shader_transpile(&leaf("Sphere"), "unknown".to_string()) {
        Ok(_) => panic!("an unknown target is turned down"),
        Err(e) => {
            assert!(matches!(&e, EngineError::UnknownTarget(t) if t == "unknown"));
            assert_eq!(e.message(), "Unknown target: unknown");
            assert!(e.message().contains("unknown"));
            assert_eq!(e.status(), 400);
            assert_eq!(e.body().error, "Unknown target: unknown");
        }
    }
}

#[test]
fn targets_are_read_exactly() {
    assert_eq!(parse_target("wgsl"), Some(Target::Wgsl));
    assert_eq!(parse_target("glsl"), Some(Target::Glsl));
    assert_eq!(parse_target("hlsl"), Some(Target::Hlsl));
    assert_eq!(parse_target("GLSL"), None);
    assert_eq!(parse_target(""), None);
    assert_eq!(parse_target("metal"), None);
    assert_eq!(parse_target("glsl "), None);
}

#[test]
fn emit_agrees_with_transpile() {
    let tree = leaf("Torus");
    assert_eq!(emit(&tree, Target::Wgsl), source(&tree, "wgsl"));
    assert_eq!(emit(&tree, Target::Glsl), source(&tree, "glsl"));
    assert_eq!(emit(&tree, Target::Hlsl), source(&tree, "hlsl"));
}
