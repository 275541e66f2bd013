//! Shader transpilation: the source text of a scene for one of the three
//! shading languages.
//!
//! Every program opens with a comment that names the language and the root
//! of the scene, and defines the distance function of the unit sphere.

use vstd::prelude::*;
use crate::error::EngineError;
use crate::scene::{dispatch_name, node_name, SceneNode};
use crate::text::{matches_at, str_eq};

verus! {

/// A shading language that programs can be emitted in.
#[derive(Clone, Copy, Debug, PartialEq, Eq, Structural)]
pub enum Target {
    Wgsl,
    Glsl,
    Hlsl,
}

/// A shader program and the target it was asked for.
pub struct ShaderResp {
    pub target: String,
    pub source: String,
}

/// The target that a name stands for, if any.
pub open spec fn target_of(name: Seq<char>) -> Option<Target> {
    if name == "wgsl"@ {
        Some(Target::Wgsl)
    } else if name == "glsl"@ {
        Some(Target::Glsl)
    } else if name == "hlsl"@ {
        Some(Target::Hlsl)
    } else {
        None
    }
}

/// The comment that opens a program of `target`, up to the name of the
/// root.
pub open spec fn marker(target: Target) -> Seq<char> {
    match target {
        Target::Wgsl => "// WGSL - "@,
        Target::Glsl => "// GLSL - "@,
        Target::Hlsl => "// HLSL - "@,
    }
}

/// What follows the name of the root in a program of `target`: the distance
/// function and, for WGSL, a fragment entry point.
pub open spec fn program_body(target: Target) -> Seq<char> {
    match target {
        Target::Wgsl =>
            "\nfn sdf_scene(p: vec3<f32>) -> f32 { return length(p) - 1.0; }\n@fragment fn fs(@location(0) wp: vec3<f32>) -> @location(0) vec4<f32> { let d = sdf_scene(wp); return vec4<f32>(vec3<f32>(0.5-d*0.5), 1.0); }"@,
        Target::Glsl => "\n#version 450\nfloat sdf(vec3 p) { return length(p)-1.0; }"@,
        Target::Hlsl => "\nfloat sdf(float3 p) { return length(p)-1.0; }"@,
    }
}

/// The program of `target` for a scene whose root goes by `name`.
pub open spec fn program(target: Target, name: Seq<char>) -> Seq<char> {
    marker(target) + name + program_body(target)
}

/// Reads a target name.
pub fn parse_target(name: &str) -> (t: Option<Target>)
    ensures
        t == target_of(name@),
{
    if str_eq(name, "wgsl") {
        Some(Target::Wgsl)
    } else if str_eq(name, "glsl") {
        Some(Target::Glsl)
    } else if str_eq(name, "hlsl") {
        Some(Target::Hlsl)
    } else {
        None
    }
}

/// Emits the program of `target` for `tree`.
pub fn emit(tree: &SceneNode, target: Target) -> (source: String)
    ensures
        source@ == program(target, dispatch_name(tree.tag)),
{
    let name = node_name(tree);
    match target {
        Target::Wgsl => {
            let mut s = String::from_str("// WGSL - ");
            s.append(name);
            s.append(
                "\nfn sdf_scene(p: vec3<f32>) -> f32 { return length(p) - 1.0; }\n@fragment fn fs(@location(0) wp: vec3<f32>) -> @location(0) vec4<f32> { let d = sdf_scene(wp); return vec4<f32>(vec3<f32>(0.5-d*0.5), 1.0); }",
            );
            s
        },
        Target::Glsl => {
            let mut s = String::from_str("// GLSL - ");
            s.append(name);
            s.append("\n#version 450\nfloat sdf(vec3 p) { return length(p)-1.0; }");
            s
        },
        Target::Hlsl => {
            let mut s = String::from_str("// HLSL - ");
            s.append(name);
            s.append("\nfloat sdf(float3 p) { return length(p)-1.0; }");
            s
        },
    }
}

/// Transpiles a scene for the target called `target`. An unknown target is
/// turned down with an error that names it; a known one gets its program,
/// with the target handed back as it came.
pub fn shader_transpile(tree: &SceneNode, target: String) -> (r: Result<ShaderResp, EngineError>)
    ensures
        match target_of(target@) {
            Some(t) => r matches Ok(resp) && resp.target@ == target@ && resp.source@ == program(
                t,
                dispatch_name(tree.tag),
            ),
            None => r matches Err(e) && e matches EngineError::UnknownTarget(named) && named@
                == target@,
        },
{
    match parse_target(target.as_str()) {
        Some(t) => {
            let source = emit(tree, t);
            Ok(ShaderResp { target, source })
        },
        None => Err(EngineError::UnknownTarget(target)),
    }
}

/// Every program starts with the marker of its language, followed by the
/// name of the root.
pub proof fn lemma_program_starts_with_marker(target: Target, name: Seq<char>)
    ensures
        marker(target).is_prefix_of(program(target, name)),
        matches_at(program(target, name), marker(target), 0),
        matches_at(program(target, name), name, marker(target).len() as int),
{
    let m = marker(target);
    let p = program(target, name);
    assert(p.subrange(0, m.len() as int) =~= m);
    assert(p.subrange(m.len() as int, (m.len() + name.len()) as int) =~= name);
}

/// The markers of the three languages differ, and each is ten characters
/// long.
pub proof fn lemma_markers_differ()
    ensures
        marker(Target::Wgsl) != marker(Target::Glsl),
        marker(Target::Wgsl) != marker(Target::Hlsl),
        marker(Target::Glsl) != marker(Target::Hlsl),
        forall|t: Target| (#[trigger] marker(t)).len() == 10,
{
    reveal_strlit("// WGSL - ");
    reveal_strlit("// GLSL - ");
    reveal_strlit("// HLSL - ");
    assert("// WGSL - "@[3] == 'W');
    assert("// GLSL - "@[3] == 'G');
    assert("// HLSL - "@[3] == 'H');
}

} // verus!
