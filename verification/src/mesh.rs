//! Mesh generation: a latitude/longitude lattice over a sphere, its
//! triangulation, and the Wavefront OBJ text of a mesh.
//!
//! The lattice of resolution `res` has `res + 1` rings of `res + 1` vertices
//! each. Vertex `(ring, segment)` stands for the point at polar angle
//! `pi * ring / res` and azimuth `2 * pi * segment / res` on the sphere; this
//! crate fixes which vertices exist and how they are joined, and leaves the
//! trigonometry to the caller.

use vstd::prelude::*;
use vstd::arithmetic::div_mod::lemma_fundamental_div_mod_converse;
use crate::scene::{dispatch_name, node_name, radius_bits, radius_of, SceneNode};
use crate::text::{decimal, decimal_value, lemma_decimal_round_trip, push_decimal, str_eq};

verus! {

/// Hard ceiling on the lattice resolution of one request.
pub const MAX_RESOLUTION: usize = 64;

/// One lattice vertex, named by its ring and its segment.
#[derive(Clone, Copy, Debug, PartialEq, Eq, Structural)]
pub struct GridVertex {
    pub ring: usize,
    pub segment: usize,
}

/// One triangle, as three indices into the vertex sequence of its mesh.
#[derive(Clone, Copy, Debug, PartialEq, Eq, Structural)]
pub struct Face {
    pub a: usize,
    pub b: usize,
    pub c: usize,
}

/// An ordered vertex sequence and an ordered face sequence over it.
pub struct MeshBuffer<V> {
    pub vertices: Vec<V>,
    pub faces: Vec<Face>,
}

/// Whether every index of every face is below `vertex_count`.
pub open spec fn faces_in_range(faces: Seq<Face>, vertex_count: nat) -> bool {
    forall|k: int|
        0 <= k < faces.len() ==> {
            &&& (#[trigger] faces[k]).a < vertex_count
            &&& faces[k].b < vertex_count
            &&& faces[k].c < vertex_count
        }
}

impl<V> MeshBuffer<V> {
    /// The invariant of a mesh: every face index names a vertex.
    pub open spec fn wf(&self) -> bool {
        faces_in_range(self.faces@, self.vertices@.len())
    }
}

/// The resolution actually used for a requested one.
pub open spec fn clamped(requested: nat) -> nat {
    if requested <= MAX_RESOLUTION {
        requested
    } else {
        MAX_RESOLUTION as nat
    }
}

/// Position of vertex `(ring, segment)` in the vertex sequence.
pub open spec fn vertex_index(res: nat, ring: nat, segment: nat) -> nat {
    ring * (res + 1) + segment
}

/// Position of the first of the two faces of cell `(ring, segment)` in the
/// face sequence.
pub open spec fn first_face_of_cell(res: nat, ring: nat, segment: nat) -> nat {
    2 * (ring * res + segment)
}

/// Number of vertices of the lattice.
pub open spec fn vertex_total(res: nat) -> nat {
    (res + 1) * (res + 1)
}

/// Number of faces of the lattice: two per cell.
pub open spec fn face_total(res: nat) -> nat {
    2 * (res * res)
}

/// The vertex at position `k` of the vertex sequence.
pub open spec fn lattice_vertex(res: nat, k: int) -> GridVertex {
    let n = res as int + 1;
    GridVertex { ring: (k / n) as usize, segment: (k % n) as usize }
}

/// The vertex sequence: ring by ring, each ring segment by segment.
pub open spec fn lattice(res: nat) -> Seq<GridVertex> {
    Seq::new(vertex_total(res), |k: int| lattice_vertex(res, k))
}

/// The first triangle of cell `(ring, segment)`.
pub open spec fn upper_face(res: nat, ring: nat, segment: nat) -> Face {
    let a = vertex_index(res, ring, segment);
    let b = a + res + 1;
    Face { a: a as usize, b: b as usize, c: (a + 1) as usize }
}

/// The second triangle of cell `(ring, segment)`.
pub open spec fn lower_face(res: nat, ring: nat, segment: nat) -> Face {
    let a = vertex_index(res, ring, segment);
    let b = a + res + 1;
    Face { a: (a + 1) as usize, b: b as usize, c: (b + 1) as usize }
}

/// The face at position `f` of the face sequence.
pub open spec fn grid_face(res: nat, f: int) -> Face {
    let cell = f / 2;
    let ring = (cell / (res as int)) as nat;
    let segment = (cell % (res as int)) as nat;
    if f % 2 == 0 {
        upper_face(res, ring, segment)
    } else {
        lower_face(res, ring, segment)
    }
}

/// The face sequence: cell by cell in ring-major order, the two triangles of
/// a cell next to each other.
pub open spec fn grid_faces(res: nat) -> Seq<Face> {
    Seq::new(face_total(res), |f: int| grid_face(res, f))
}

/// Clamps a requested resolution to `MAX_RESOLUTION`.
pub fn clamp_resolution(requested: usize) -> (res: usize)
    ensures
        res == clamped(requested as nat),
        res <= MAX_RESOLUTION,
        res <= requested,
{
    if requested <= MAX_RESOLUTION {
        requested
    } else {
        MAX_RESOLUTION
    }
}

proof fn lemma_split_index(q: int, r: int, n: int)
    requires
        0 <= q,
        0 <= r < n,
    ensures
        (q * n + r) / n == q,
        (q * n + r) % n == r,
{
    lemma_fundamental_div_mod_converse(q * n + r, n, q, r);
}

proof fn lemma_row_bound(i: int, n: int, m: int)
    requires
        0 <= i < m,
        0 <= n,
    ensures
        i * n + n <= m * n,
        0 <= i * n,
        (i + 1) * n == i * n + n,
{
    assert(i * n + n == (i + 1) * n) by (nonlinear_arith);
    assert((i + 1) * n <= m * n) by (nonlinear_arith)
        requires
            i + 1 <= m,
            0 <= n,
    ;
    assert(0 <= i * n) by (nonlinear_arith)
        requires
            0 <= i,
            0 <= n,
    ;
}

fn lattice_vertices(res: usize) -> (v: Vec<GridVertex>)
    requires
        res <= MAX_RESOLUTION,
    ensures
        v@ == lattice(res as nat),
{
    let n: usize = res + 1;
    let mut v: Vec<GridVertex> = Vec::new();
    let mut i: usize = 0;
    while i < n
        invariant
            i <= n,
            n == res + 1,
            res <= MAX_RESOLUTION,
            v@.len() == i * n,
            forall|k: int| 0 <= k < v@.len() ==> v@[k] == lattice_vertex(res as nat, k),
        decreases n - i,
    {
        let mut j: usize = 0;
        proof {
            lemma_row_bound(i as int, n as int, n as int);
        }
        while j < n
            invariant
                j <= n,
                i < n,
                n == res + 1,
                res <= MAX_RESOLUTION,
                i * n + n <= n * n,
                0 <= i * n,
                v@.len() == i * n + j,
                forall|k: int| 0 <= k < v@.len() ==> v@[k] == lattice_vertex(res as nat, k),
            decreases n - j,
        {
            proof {
                lemma_split_index(i as int, j as int, n as int);
            }
            v.push(GridVertex { ring: i, segment: j });
            j = j + 1;
        }
        i = i + 1;
        proof {
            lemma_row_bound(i as int - 1, n as int, n as int);
        }
    }
    assert(v@ =~= lattice(res as nat));
    v
}

proof fn lemma_cell_bounds(i: int, j: int, res: int)
    requires
        0 <= i < res,
        0 <= j < res,
        res <= MAX_RESOLUTION,
    ensures
        0 <= i * (res + 1) + j,
        i * (res + 1) + j + res + 2 < (res + 1) * (res + 1),
        (res + 1) * (res + 1) <= 4225,
        0 <= i * res,
        i * res + res <= res * res,
        (i + 1) * res == i * res + res,
{
    assert(0 <= i * (res + 1) && i * (res + 1) + (res + 1) <= (res - 0) * (res + 1)) by (nonlinear_arith)
        requires
            0 <= i,
            i + 1 <= res,
    ;
    assert((res - 0) * (res + 1) + (res + 1) == (res + 1) * (res + 1)) by (nonlinear_arith);
    assert((res + 1) * (res + 1) <= 4225) by (nonlinear_arith)
        requires
            0 <= res <= 64,
    ;
    lemma_row_bound(i, res, res);
}

fn lattice_faces(res: usize) -> (f: Vec<Face>)
    requires
        res <= MAX_RESOLUTION,
    ensures
        f@ == grid_faces(res as nat),
{
    let n: usize = res + 1;
    let mut f: Vec<Face> = Vec::new();
    let mut i: usize = 0;
    while i < res
        invariant
            i <= res,
            n == res + 1,
            res <= MAX_RESOLUTION,
            f@.len() == 2 * (i * res),
            forall|k: int| 0 <= k < f@.len() ==> f@[k] == grid_face(res as nat, k),
        decreases res - i,
    {
        let mut j: usize = 0;
        proof {
            lemma_cell_bounds(i as int, 0, res as int);
        }
        while j < res
            invariant
                j <= res,
                i < res,
                n == res + 1,
                res <= MAX_RESOLUTION,
                0 <= i * res,
                i * res + res <= res * res,
                f@.len() == 2 * (i * res + j),
                forall|k: int| 0 <= k < f@.len() ==> f@[k] == grid_face(res as nat, k),
            decreases res - j,
        {
            proof {
                lemma_cell_bounds(i as int, j as int, res as int);
                lemma_split_index(i as int, j as int, res as int);
                lemma_split_index(i * res + j, 0, 2);
                lemma_split_index(i * res + j, 1, 2);
            }
            let a: usize = i * n + j;
            let b: usize = a + n;
            f.push(Face { a: a, b: b, c: a + 1 });
            f.push(Face { a: a + 1, b: b, c: b + 1 });
            j = j + 1;
        }
        i = i + 1;
        proof {
            lemma_row_bound(i as int - 1, res as int, res as int);
        }
    }
    assert(f@ =~= grid_faces(res as nat));
    f
}

/// The lattice of the clamped resolution as a mesh: vertex `(ring, segment)`
/// at position `ring * (res + 1) + segment`, and two triangles per cell.
pub fn tessellate(resolution: usize) -> (m: MeshBuffer<GridVertex>)
    ensures
        m.vertices@ == lattice(clamped(resolution as nat)),
        m.faces@ == grid_faces(clamped(resolution as nat)),
        m.vertices@.len() == vertex_total(clamped(resolution as nat)),
        m.faces@.len() == face_total(clamped(resolution as nat)),
        resolution >= MAX_RESOLUTION ==> m.vertices@.len() == 4225 && m.faces@.len() == 8192,
        m.wf(),
{
    let res = clamp_resolution(resolution);
    let vertices = lattice_vertices(res);
    let faces = lattice_faces(res);
    proof {
        lemma_grid_faces_in_range(res as nat);
        if resolution >= MAX_RESOLUTION {
            lemma_counts_at_ceiling(resolution as nat);
        }
    }
    MeshBuffer { vertices, faces }
}

/// Every face of the lattice names three of its vertices.
pub proof fn lemma_grid_faces_in_range(res: nat)
    requires
        res <= MAX_RESOLUTION,
    ensures
        faces_in_range(grid_faces(res), vertex_total(res)),
{
    let faces = grid_faces(res);
    assert forall|k: int| 0 <= k < faces.len() implies {
        &&& (#[trigger] faces[k]).a < vertex_total(res)
        &&& faces[k].b < vertex_total(res)
        &&& faces[k].c < vertex_total(res)
    } by {
        lemma_face_cell(res, k);
    }
}

proof fn lemma_face_cell(res: nat, k: int)
    requires
        res <= MAX_RESOLUTION,
        0 <= k < face_total(res),
    ensures
        0 <= (k / 2) / (res as int) < res,
        0 <= (k / 2) % (res as int) < res,
        grid_face(res, k).a < vertex_total(res),
        grid_face(res, k).b < vertex_total(res),
        grid_face(res, k).c < vertex_total(res),
{
    let r = res as int;
    let cell = k / 2;
    assert(0 <= cell < r * r);
    assert(r > 0) by (nonlinear_arith)
        requires
            0 <= cell < r * r,
            r >= 0,
    ;
    let i = cell / r;
    let j = cell % r;
    vstd::arithmetic::div_mod::lemma_fundamental_div_mod(cell, r);
    assert(0 <= j < r);
    assert(0 <= i < r) by (nonlinear_arith)
        requires
            cell == r * i + j,
            0 <= j < r,
            0 <= cell < r * r,
            r > 0,
    ;
    lemma_cell_bounds(i, j, r);
}

/// Vertex `(ring, segment)` sits at position `ring * (res + 1) + segment` of
/// the vertex sequence, for every ring and segment from zero to `res`.
pub proof fn lemma_vertex_at(res: nat, ring: nat, segment: nat)
    requires
        res <= MAX_RESOLUTION,
        ring <= res,
        segment <= res,
    ensures
        vertex_index(res, ring, segment) < vertex_total(res),
        lattice(res)[vertex_index(res, ring, segment) as int] == (GridVertex {
            ring: ring as usize,
            segment: segment as usize,
        }),
{
    let n = res as int + 1;
    lemma_split_index(ring as int, segment as int, n);
    lemma_row_bound(ring as int, n, n);
}

/// Cell `(ring, segment)` contributes the faces at positions
/// `first_face_of_cell` and the next one: first
/// `(a, b, a + 1)`, then `(a + 1, b, b + 1)`, where `a` is the position of
/// vertex `(ring, segment)` and `b = a + res + 1` that of the vertex one ring
/// further.
pub proof fn lemma_faces_of_cell(res: nat, ring: nat, segment: nat)
    requires
        res <= MAX_RESOLUTION,
        ring < res,
        segment < res,
    ensures
        first_face_of_cell(res, ring, segment) + 1 < face_total(res),
        grid_faces(res)[first_face_of_cell(res, ring, segment) as int] == upper_face(
            res,
            ring,
            segment,
        ),
        grid_faces(res)[first_face_of_cell(res, ring, segment) as int + 1] == lower_face(
            res,
            ring,
            segment,
        ),
        vertex_index(res, ring, segment) + res + 1 == vertex_index(res, ring + 1, segment),
{
    let r = res as int;
    let cell = ring * res + segment;
    lemma_cell_bounds(ring as int, segment as int, r);
    lemma_split_index(ring as int, segment as int, r);
    lemma_split_index(cell as int, 0, 2);
    lemma_split_index(cell as int, 1, 2);
    assert((ring + 1) * (res + 1) == ring * (res + 1) + res + 1) by (nonlinear_arith);
}

/// The three coordinates of one vertex, each already rendered as text.
pub struct VertexText {
    pub x: String,
    pub y: String,
    pub z: String,
}

/// The `v` line of one vertex.
pub open spec fn vertex_line(v: VertexText) -> Seq<char> {
    "v "@ + v.x@ + " "@ + v.y@ + " "@ + v.z@ + "\n"@
}

/// The `f` line of one face: its three indices, counted from one.
pub open spec fn face_line(f: Face) -> Seq<char> {
    "f "@ + decimal((f.a + 1) as nat) + " "@ + decimal((f.b + 1) as nat) + " "@ + decimal(
        (f.c + 1) as nat,
    ) + "\n"@
}

/// The two comment lines that open an OBJ document.
pub open spec fn obj_header(name: Seq<char>, vertex_count: nat, face_count: nat) -> Seq<char> {
    "# AI Modeler - "@ + name + "\n# V:"@ + decimal(vertex_count) + " F:"@ + decimal(face_count)
        + "\n"@
}

/// The `v` lines of a vertex sequence, in order.
pub open spec fn vertex_lines(vs: Seq<VertexText>) -> Seq<char>
    decreases vs.len(),
{
    if vs.len() == 0 {
        Seq::empty()
    } else {
        vertex_lines(vs.drop_last()) + vertex_line(vs.last())
    }
}

/// The `f` lines of a face sequence, in order.
pub open spec fn face_lines(fs: Seq<Face>) -> Seq<char>
    decreases fs.len(),
{
    if fs.len() == 0 {
        Seq::empty()
    } else {
        face_lines(fs.drop_last()) + face_line(fs.last())
    }
}

/// A whole OBJ document: header, one `v` line per vertex, one `f` line per
/// face.
pub open spec fn obj_document(name: Seq<char>, vs: Seq<VertexText>, fs: Seq<Face>) -> Seq<char> {
    obj_header(name, vs.len(), fs.len()) + vertex_lines(vs) + face_lines(fs)
}

/// The OBJ text of `mesh`, headed by `name`.
pub fn obj_text(name: &str, mesh: &MeshBuffer<VertexText>) -> (s: String)
    requires
        mesh.wf(),
    ensures
        s@ == obj_document(name@, mesh.vertices@, mesh.faces@),
{
    let mut s = String::from_str("# AI Modeler - ");
    s.append(name);
    s.append("\n# V:");
    push_decimal(&mut s, mesh.vertices.len());
    s.append(" F:");
    push_decimal(&mut s, mesh.faces.len());
    s.append("\n");
    let ghost header = obj_header(name@, mesh.vertices@.len(), mesh.faces@.len());
    assert(s@ == header);
    let mut i: usize = 0;
    while i < mesh.vertices.len()
        invariant
            i <= mesh.vertices.len(),
            s@ == header + vertex_lines(mesh.vertices@.take(i as int)),
        decreases mesh.vertices.len() - i,
    {
        let ghost before = s@;
        let v = &mesh.vertices[i];
        s.append("v ");
        s.append(v.x.as_str());
        s.append(" ");
        s.append(v.y.as_str());
        s.append(" ");
        s.append(v.z.as_str());
        s.append("\n");
        i = i + 1;
        proof {
            let done = mesh.vertices@.take(i as int);
            assert(done.drop_last() =~= mesh.vertices@.take(i - 1));
            assert(done.last() == *v);
            assert(s@ =~= before + vertex_line(*v));
            assert(s@ =~= header + vertex_lines(done));
        }
    }
    assert(mesh.vertices@.take(i as int) =~= mesh.vertices@);
    let ghost body = header + vertex_lines(mesh.vertices@);
    let mut k: usize = 0;
    while k < mesh.faces.len()
        invariant
            k <= mesh.faces.len(),
            mesh.wf(),
            mesh.vertices@.len() <= usize::MAX,
            s@ == body + face_lines(mesh.faces@.take(k as int)),
        decreases mesh.faces.len() - k,
    {
        let ghost before = s@;
        let f = mesh.faces[k];
        assert(f == mesh.faces@[k as int]);
        s.append("f ");
        push_decimal(&mut s, f.a + 1);
        s.append(" ");
        push_decimal(&mut s, f.b + 1);
        s.append(" ");
        push_decimal(&mut s, f.c + 1);
        s.append("\n");
        k = k + 1;
        proof {
            let done = mesh.faces@.take(k as int);
            assert(done.drop_last() =~= mesh.faces@.take(k - 1));
            assert(done.last() == f);
            assert(s@ =~= before + face_line(f));
            assert(s@ =~= body + face_lines(done));
        }
    }
    assert(mesh.faces@.take(k as int) =~= mesh.faces@);
    s
}

/// A request for the ceiling or more gets the lattice of the ceiling: 4225
/// vertices and 8192 faces, whatever was asked for.
pub proof fn lemma_counts_at_ceiling(requested: nat)
    requires
        requested >= MAX_RESOLUTION,
    ensures
        clamped(requested) == 64,
        vertex_total(clamped(requested)) == 65 * 65,
        face_total(clamped(requested)) == 2 * (64 * 64),
{
}

/// The resolution used never exceeds the ceiling nor what was asked for,
/// and neither do the counts of the lattice exceed those of the ceiling.
pub proof fn lemma_clamp_bounds(requested: nat)
    ensures
        clamped(requested) <= MAX_RESOLUTION,
        clamped(requested) <= requested,
        vertex_total(clamped(requested)) <= 4225,
        face_total(clamped(requested)) <= 8192,
{
    let r = clamped(requested) as int;
    assert((r + 1) * (r + 1) <= 4225 && 2 * (r * r) <= 8192) by (nonlinear_arith)
        requires
            0 <= r <= 64,
    ;
}

/// The indices written on the `f` line of a face: each index of the face,
/// counted from one.
pub open spec fn obj_indices(f: Face) -> (nat, nat, nat) {
    ((f.a + 1) as nat, (f.b + 1) as nat, (f.c + 1) as nat)
}

/// In the OBJ text of a well-formed mesh, the `f` line of every face is
/// made of the decimal numerals of three indices between one and the number
/// of vertices, and each numeral reads back as the index it was written
/// from.
pub proof fn lemma_obj_indices_in_range(vertex_count: nat, faces: Seq<Face>, k: int)
    requires
        faces_in_range(faces, vertex_count),
        0 <= k < faces.len(),
    ensures
        ({
            let (a, b, c) = obj_indices(faces[k]);
            &&& 1 <= a <= vertex_count
            &&& 1 <= b <= vertex_count
            &&& 1 <= c <= vertex_count
            &&& face_line(faces[k]) == "f "@ + decimal(a) + " "@ + decimal(b) + " "@ + decimal(c)
                + "\n"@
            &&& decimal_value(decimal(a)) == a
            &&& decimal_value(decimal(b)) == b
            &&& decimal_value(decimal(c)) == c
        }),
{
    let (a, b, c) = obj_indices(faces[k]);
    lemma_decimal_round_trip(a);
    lemma_decimal_round_trip(b);
    lemma_decimal_round_trip(c);
}

/// The lattice of every resolution up to the ceiling is a well-formed mesh,
/// so every index on an `f` line of its OBJ text lies between one and its
/// number of vertices.
pub proof fn lemma_lattice_obj_indices(res: nat, k: int)
    requires
        res <= MAX_RESOLUTION,
        0 <= k < face_total(res),
    ensures
        ({
            let (a, b, c) = obj_indices(grid_faces(res)[k]);
            &&& 1 <= a <= vertex_total(res)
            &&& 1 <= b <= vertex_total(res)
            &&& 1 <= c <= vertex_total(res)
        }),
{
    lemma_grid_faces_in_range(res);
    lemma_obj_indices_in_range(vertex_total(res), grid_faces(res), k);
}

/// What one mesh request yields: the two counts, the format as asked for,
/// and the text of the mesh where the format has one.
pub struct MeshResp {
    pub vertex_count: usize,
    pub face_count: usize,
    pub format: String,
    pub data_text: Option<String>,
}

/// Whether `coords` is what `render` gave for the lattice of `res`, vertex
/// by vertex in lattice order, on a sphere of the given radius.
pub open spec fn rendered_by<F: Fn(GridVertex, usize, u64) -> VertexText>(
    render: F,
    res: nat,
    radius: u64,
    coords: Seq<VertexText>,
) -> bool {
    &&& coords.len() == vertex_total(res)
    &&& forall|k: int|
        0 <= k < coords.len() ==> call_ensures(
            render,
            (lattice(res)[k], res as usize, radius),
            #[trigger] coords[k],
        )
}

fn render_vertices<F: Fn(GridVertex, usize, u64) -> VertexText>(
    vertices: &Vec<GridVertex>,
    res: usize,
    radius: u64,
    render: &F,
) -> (coords: Vec<VertexText>)
    requires
        res <= MAX_RESOLUTION,
        vertices@ == lattice(res as nat),
        forall|k: int|
            0 <= k < vertex_total(res as nat) ==> call_requires(
                *render,
                (#[trigger] lattice(res as nat)[k], res, radius),
            ),
    ensures
        rendered_by(*render, res as nat, radius, coords@),
{
    let mut coords: Vec<VertexText> = Vec::new();
    let mut k: usize = 0;
    while k < vertices.len()
        invariant
            k <= vertices.len(),
            vertices@ == lattice(res as nat),
            coords@.len() == k,
            forall|i: int|
                0 <= i < vertex_total(res as nat) ==> call_requires(
                    *render,
                    (#[trigger] lattice(res as nat)[i], res, radius),
                ),
            forall|i: int|
                0 <= i < k ==> call_ensures(
                    *render,
                    (lattice(res as nat)[i], res, radius),
                    #[trigger] coords@[i],
                ),
        decreases vertices.len() - k,
    {
        let v = vertices[k];
        assert(v == lattice(res as nat)[k as int]);
        let t = render(v, res, radius);
        coords.push(t);
        k = k + 1;
    }
    coords
}

/// Whether `render` can be called on every vertex of the lattice that a
/// request for `resolution` on `tree` gets.
pub open spec fn can_render<F: Fn(GridVertex, usize, u64) -> VertexText>(
    render: F,
    tree: SceneNode,
    resolution: usize,
) -> bool {
    forall|k: int|
        0 <= k < vertex_total(clamped(resolution as nat)) ==> call_requires(
            render,
            (
                #[trigger] lattice(clamped(resolution as nat))[k],
                clamped(resolution as nat) as usize,
                radius_of(tree),
            ),
        )
}

/// Whether `resp` answers a request for the mesh of `tree` at `resolution`
/// in `format`.
///
/// The counts are those of the lattice of the clamped resolution. The
/// format is handed back as it came. The format `obj` has the OBJ text of
/// that lattice, headed by the name of the root, with the coordinates that
/// `render` gave for each vertex; any other format has no text.
pub open spec fn mesh_answer<F: Fn(GridVertex, usize, u64) -> VertexText>(
    resp: MeshResp,
    tree: SceneNode,
    resolution: usize,
    format: Seq<char>,
    render: F,
) -> bool {
    let res = clamped(resolution as nat);
    &&& resp.vertex_count == vertex_total(res)
    &&& resp.face_count == face_total(res)
    &&& resp.format@ == format
    &&& if format == "obj"@ {
        exists|coords: Seq<VertexText>|
            {
                &&& #[trigger] rendered_by(render, res, radius_of(tree), coords)
                &&& resp.data_text matches Some(text)
                &&& text@ == obj_document(dispatch_name(tree.tag), coords, grid_faces(res))
            }
    } else {
        resp.data_text is None
    }
}

/// Generates the mesh of a scene.
///
/// The requested resolution is clamped to `MAX_RESOLUTION`, whatever was
/// asked for, so that a request for 64 or more always gets 4225 vertices
/// and 8192 faces. Where the format is `obj`, `render` is asked once per
/// vertex, in lattice order, for the text of its coordinates on a sphere of
/// the root's radius; for any other format it is not called.
pub fn mesh_generate<F: Fn(GridVertex, usize, u64) -> VertexText>(
    tree: &SceneNode,
    resolution: usize,
    format: String,
    render: F,
) -> (resp: MeshResp)
    requires
        format@ == "obj"@ ==> can_render(render, *tree, resolution),
    ensures
        mesh_answer(resp, *tree, resolution, format@, render),
        resolution >= MAX_RESOLUTION ==> resp.vertex_count == 4225 && resp.face_count == 8192,
{
    let res = clamp_resolution(resolution);
    let mesh = tessellate(resolution);
    let vertex_count = mesh.vertices.len();
    let face_count = mesh.faces.len();
    let data_text = if str_eq(format.as_str(), "obj") {
        let radius = radius_bits(tree);
        let coords = render_vertices(&mesh.vertices, res, radius, &render);
        let textual = MeshBuffer { vertices: coords, faces: mesh.faces };
        let text = obj_text(node_name(tree), &textual);
        assert(rendered_by(render, res as nat, radius, textual.vertices@));
        Some(text)
    } else {
        None
    };
    MeshResp { vertex_count, face_count, format, data_text }
}

/// Exports the mesh of a scene: the same request, and the same answer, as
/// `mesh_generate`.
pub fn export<F: Fn(GridVertex, usize, u64) -> VertexText>(
    tree: &SceneNode,
    resolution: usize,
    format: String,
    render: F,
) -> (resp: MeshResp)
    requires
        format@ == "obj"@ ==> can_render(render, *tree, resolution),
    ensures
        mesh_answer(resp, *tree, resolution, format@, render),
        resolution >= MAX_RESOLUTION ==> resp.vertex_count == 4225 && resp.face_count == 8192,
{
    mesh_generate(tree, resolution, format, render)
}

} // verus!
