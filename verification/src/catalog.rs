//! The catalog of what the engine knows by name: primitives, operations,
//! transforms and modifiers, each with its category.

use vstd::prelude::*;

verus! {

/// One catalog entry: a name and the category it is filed under.
pub struct PrimInfo {
    pub name: String,
    pub category: String,
}

impl View for PrimInfo {
    type V = (Seq<char>, Seq<char>);

    open spec fn view(&self) -> (Seq<char>, Seq<char>) {
        (self.name@, self.category@)
    }
}

/// The whole catalog: its four lists and the number of entries in all.
pub struct PrimsResp {
    pub total: usize,
    pub primitives: Vec<PrimInfo>,
    pub operations: Vec<PrimInfo>,
    pub transforms: Vec<PrimInfo>,
    pub modifiers: Vec<PrimInfo>,
}

/// A list of entries as pairs of name and category.
pub open spec fn entries(list: Seq<PrimInfo>) -> Seq<(Seq<char>, Seq<char>)> {
    list.map_values(|e: PrimInfo| e@)
}

/// The primitives, in catalog order.
pub open spec fn primitive_table() -> Seq<(Seq<char>, Seq<char>)> {
    seq![
        ("Sphere"@, "basic"@),
        ("Box3d"@, "basic"@),
        ("Cylinder"@, "basic"@),
        ("Torus"@, "basic"@),
        ("Plane"@, "basic"@),
        ("Capsule"@, "basic"@),
        ("Cone"@, "basic"@),
        ("RoundedBox"@, "extended"@),
        ("Ellipsoid"@, "extended"@),
        ("Pyramid"@, "extended"@),
        ("Octahedron"@, "platonic"@),
        ("Tetrahedron"@, "platonic"@),
        ("Gyroid"@, "tpms"@),
        ("SchwarzP"@, "tpms"@),
        ("Diamond"@, "tpms"@),
    ]
}

/// The operations, in catalog order.
pub open spec fn operation_table() -> Seq<(Seq<char>, Seq<char>)> {
    seq![
        ("Union"@, "standard"@),
        ("Intersection"@, "standard"@),
        ("Subtraction"@, "standard"@),
        ("SmoothUnion"@, "smooth"@),
        ("SmoothIntersection"@, "smooth"@),
        ("SmoothSubtraction"@, "smooth"@),
        ("ChamferUnion"@, "chamfer"@),
        ("Xor"@, "special"@),
        ("Morph"@, "special"@),
    ]
}

/// The transforms, in catalog order.
pub open spec fn transform_table() -> Seq<(Seq<char>, Seq<char>)> {
    seq![
        ("Translate"@, "spatial"@),
        ("RotateEuler"@, "spatial"@),
        ("Scale"@, "spatial"@),
        ("ScaleNonUniform"@, "spatial"@),
    ]
}

/// The modifiers, in catalog order.
pub open spec fn modifier_table() -> Seq<(Seq<char>, Seq<char>)> {
    seq![
        ("Twist"@, "deform"@),
        ("Bend"@, "deform"@),
        ("Repeat"@, "pattern"@),
        ("RepeatFinite"@, "pattern"@),
        ("Mirror"@, "pattern"@),
        ("PolarRepeat"@, "pattern"@),
        ("Noise"@, "surface"@),
        ("Shell"@, "surface"@),
        ("Onion"@, "surface"@),
    ]
}

fn put(list: &mut Vec<PrimInfo>, name: &str, category: &str)
    ensures
        entries(final(list)@) == entries(old(list)@).push((name@, category@)),
        final(list)@.len() == old(list)@.len() + 1,
{
    list.push(PrimInfo { name: String::from_str(name), category: String::from_str(category) });
    assert(entries(list@) =~= entries(old(list)@).push((name@, category@)));
}

/// The catalog. It is the same on every call.
pub fn list_primitives() -> (resp: PrimsResp)
    ensures
        entries(resp.primitives@) == primitive_table(),
        entries(resp.operations@) == operation_table(),
        entries(resp.transforms@) == transform_table(),
        entries(resp.modifiers@) == modifier_table(),
        resp.total == 37,
        resp.total == resp.primitives@.len() + resp.operations@.len() + resp.transforms@.len()
            + resp.modifiers@.len(),
{
    let mut prims: Vec<PrimInfo> = Vec::new();
    assert(entries(prims@) =~= Seq::empty());
    put(&mut prims, "Sphere", "basic");
    put(&mut prims, "Box3d", "basic");
    put(&mut prims, "Cylinder", "basic");
    put(&mut prims, "Torus", "basic");
    put(&mut prims, "Plane", "basic");
    put(&mut prims, "Capsule", "basic");
    put(&mut prims, "Cone", "basic");
    put(&mut prims, "RoundedBox", "extended");
    put(&mut prims, "Ellipsoid", "extended");
    put(&mut prims, "Pyramid", "extended");
    put(&mut prims, "Octahedron", "platonic");
    put(&mut prims, "Tetrahedron", "platonic");
    put(&mut prims, "Gyroid", "tpms");
    put(&mut prims, "SchwarzP", "tpms");
    put(&mut prims, "Diamond", "tpms");
    let mut ops: Vec<PrimInfo> = Vec::new();
    assert(entries(ops@) =~= Seq::empty());
    put(&mut ops, "Union", "standard");
    put(&mut ops, "Intersection", "standard");
    put(&mut ops, "Subtraction", "standard");
    put(&mut ops, "SmoothUnion", "smooth");
    put(&mut ops, "SmoothIntersection", "smooth");
    put(&mut ops, "SmoothSubtraction", "smooth");
    put(&mut ops, "ChamferUnion", "chamfer");
    put(&mut ops, "Xor", "special");
    put(&mut ops, "Morph", "special");
    let mut trans: Vec<PrimInfo> = Vec::new();
    assert(entries(trans@) =~= Seq::empty());
    put(&mut trans, "Translate", "spatial");
    put(&mut trans, "RotateEuler", "spatial");
    put(&mut trans, "Scale", "spatial");
    put(&mut trans, "ScaleNonUniform", "spatial");
    let mut mods: Vec<PrimInfo> = Vec::new();
    assert(entries(mods@) =~= Seq::empty());
    put(&mut mods, "Twist", "deform");
    put(&mut mods, "Bend", "deform");
    put(&mut mods, "Repeat", "pattern");
    put(&mut mods, "RepeatFinite", "pattern");
    put(&mut mods, "Mirror", "pattern");
    put(&mut mods, "PolarRepeat", "pattern");
    put(&mut mods, "Noise", "surface");
    put(&mut mods, "Shell", "surface");
    put(&mut mods, "Onion", "surface");
    let total = prims.len() + ops.len() + trans.len() + mods.len();
    PrimsResp { total, primitives: prims, operations: ops, transforms: trans, modifiers: mods }
}

} // verus!
