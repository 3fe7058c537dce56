//! The mesh builder: ring generation, shading-normal batches, index
//! assignment over the concatenated vertex sequence, fan triangulation of
//! the caps, and the side-wall quad strip with its explicit closing seam.

use vstd::prelude::*;
use vstd::string::StringExecFns;
use crate::mesh::{
    Face, Mesh, Normal, NormalView, RingPoint, RingPointView, Vertex, VertexView,
    normals_view, ring_points_view, vertices_view,
};

verus! {

/// The smallest angular precision that can be triangulated: a cap needs at
/// least a triangle and a ring needs at least three segments to close.
pub const MIN_PRECISION: u32 = 3;

/// The single validation failure class: an angular precision too small to
/// triangulate, carrying the rejected value.
#[derive(Clone, Copy, PartialEq, Eq, Structural, Debug)]
pub struct PrecisionError {
    pub given: u32,
}

/// Rejects a precision on which no generation work may begin.
pub fn validate_precision(n: u32) -> (r: Result<(), PrecisionError>)
    ensures
        r is Ok <==> n >= MIN_PRECISION,
        r is Err ==> r->Err_0.given == n,
{
    if n < MIN_PRECISION {
        Err(PrecisionError { given: n })
    } else {
        Ok(())
    }
}

/// One ring of vertices at height `y`: vertex `i` stands over circle point
/// `i`, in increasing angular order, its index not yet assigned.
pub open spec fn ring_view(points: Seq<RingPointView>, y: Seq<char>) -> Seq<VertexView> {
    Seq::new(points.len(), |i: int| VertexView { x: points[i].x, y: y, z: points[i].z, index: 0 })
}

/// A flat cap normal: vertical component `y`, no horizontal component.
pub open spec fn flat_normal(y: Seq<char>) -> NormalView {
    NormalView { x: "0"@, y: y, z: "0"@ }
}

/// `count` copies of the flat cap normal with vertical component `y`.
pub open spec fn flat_normals_view(count: nat, y: Seq<char>) -> Seq<NormalView> {
    Seq::new(count, |i: int| flat_normal(y))
}

/// One radial side-wall normal per circle point: the point's own horizontal
/// position reused as a direction, no vertical component.
pub open spec fn radial_normals_view(points: Seq<RingPointView>) -> Seq<NormalView> {
    Seq::new(points.len(), |i: int| NormalView { x: points[i].x, y: "0"@, z: points[i].z })
}

/// Index assignment over a concatenated sequence: the vertex at position `i`
/// receives index `i` and keeps its position tokens.
pub open spec fn reindexed(s: Seq<VertexView>) -> Seq<VertexView> {
    Seq::new(s.len(), |i: int| VertexView { index: i as u32, ..s[i] })
}

/// Index assignment is a pure function of sequence order: position `i`
/// always receives index `i`, whatever index stood there before, and the
/// position tokens are untouched.
pub proof fn lemma_reindexed_order(s: Seq<VertexView>)
    ensures
        reindexed(s).len() == s.len(),
        forall|i: int| 0 <= i < s.len() ==> (#[trigger] reindexed(s)[i]) == (VertexView {
            index: i as u32,
            ..s[i]
        }),
{
}

/// Assigning indices to an already-indexed sequence changes nothing: the
/// assignment is idempotent.
pub proof fn lemma_reindexed_idempotent(s: Seq<VertexView>)
    ensures
        reindexed(reindexed(s)) == reindexed(s),
{
    assert(reindexed(reindexed(s)) =~= reindexed(s));
}

/// Builds one ring of `points.len()` vertices at height `y`, in circle
/// order, indices left unassigned.
pub fn build_ring(points: &Vec<RingPoint>, y: &str) -> (ring: Vec<Vertex>)
    ensures
        vertices_view(ring@) == ring_view(ring_points_view(points@), y@),
        ring@.len() == points@.len(),
{
    let ghost model = ring_view(ring_points_view(points@), y@);
    let mut ring: Vec<Vertex> = Vec::new();
    let mut i: usize = 0;
    while i < points.len()
        invariant
            i <= points@.len(),
            ring@.len() == i,
            model == ring_view(ring_points_view(points@), y@),
            vertices_view(ring@) =~= model.subrange(0, i as int),
        decreases points@.len() - i,
    {
        let p = &points[i];
        ring.push(Vertex { x: p.x.clone(), y: y.to_owned(), z: p.z.clone(), index: 0 });
        i += 1;
        assert(vertices_view(ring@) =~= model.subrange(0, i as int));
    }
    assert(vertices_view(ring@) =~= model);
    ring
}

/// Builds `count` copies of the flat cap normal whose vertical component is
/// the token `y`.
pub fn flat_normals(count: usize, y: &str) -> (ns: Vec<Normal>)
    ensures
        normals_view(ns@) == flat_normals_view(count as nat, y@),
        ns@.len() == count,
{
    let ghost model = flat_normals_view(count as nat, y@);
    let mut ns: Vec<Normal> = Vec::new();
    let mut i: usize = 0;
    while i < count
        invariant
            i <= count,
            ns@.len() == i,
            model == flat_normals_view(count as nat, y@),
            normals_view(ns@) =~= model.subrange(0, i as int),
        decreases count - i,
    {
        ns.push(Normal { x: "0".to_owned(), y: y.to_owned(), z: "0".to_owned() });
        i += 1;
        assert(normals_view(ns@) =~= model.subrange(0, i as int));
    }
    assert(normals_view(ns@) =~= model);
    ns
}

/// Builds one radial side-wall normal per circle point, each reusing the
/// point's own horizontal position.
pub fn radial_normals(points: &Vec<RingPoint>) -> (ns: Vec<Normal>)
    ensures
        normals_view(ns@) == radial_normals_view(ring_points_view(points@)),
        ns@.len() == points@.len(),
{
    let ghost model = radial_normals_view(ring_points_view(points@));
    let mut ns: Vec<Normal> = Vec::new();
    let mut i: usize = 0;
    while i < points.len()
        invariant
            i <= points@.len(),
            ns@.len() == i,
            model == radial_normals_view(ring_points_view(points@)),
            normals_view(ns@) =~= model.subrange(0, i as int),
        decreases points@.len() - i,
    {
        let p = &points[i];
        ns.push(Normal { x: p.x.clone(), y: "0".to_owned(), z: p.z.clone() });
        i += 1;
        assert(normals_view(ns@) =~= model.subrange(0, i as int));
    }
    assert(normals_view(ns@) =~= model);
    ns
}

/// Assigns the final 0-based index to every vertex of the concatenated
/// sequence in one pass: position `i` receives index `i`.
pub fn assign_indices(vs: &mut Vec<Vertex>)
    requires
        old(vs)@.len() <= u32::MAX,
    ensures
        vertices_view(final(vs)@) == reindexed(vertices_view(old(vs)@)),
        final(vs)@.len() == old(vs)@.len(),
{
    let ghost orig = vs@;
    let ghost model = reindexed(vertices_view(orig));
    let n = vs.len();
    let mut i: usize = 0;
    while i < n
        invariant
            n == vs@.len(),
            n == orig.len(),
            n <= u32::MAX,
            i <= n,
            model == reindexed(vertices_view(orig)),
            forall|k: int| i <= k < n ==> vs@[k] == orig[k],
            forall|k: int| 0 <= k < i ==> (#[trigger] vs@[k])@ == model[k],
        decreases n - i,
    {
        vs[i].index = i as u32;
        assert(vertices_view(orig)[i as int] == orig[i as int]@);
        assert(vs@[i as int]@ == model[i as int]);
        i += 1;
    }
    assert(vertices_view(vs@) =~= model);
}

/// Triangle `j` of a fan over a ring that starts at vertex index `anchor`:
/// the anchor, then ring neighbours `j + 1` and `j + 2`, swapped when the
/// cap faces the other way.
pub open spec fn cap_fan_face(anchor: u32, j: int, flip: bool) -> Face {
    if flip {
        Face { a: anchor, b: (anchor + j + 2) as u32, c: (anchor + j + 1) as u32 }
    } else {
        Face { a: anchor, b: (anchor + j + 1) as u32, c: (anchor + j + 2) as u32 }
    }
}

/// The full fan over a ring of `n` vertices starting at index `anchor`:
/// `n - 2` triangles, all sharing the anchor.
pub open spec fn cap_fan_view(anchor: u32, n: u32, flip: bool) -> Seq<Face>
    recommends
        n >= 3,
{
    Seq::new((n - 2) as nat, |j: int| cap_fan_face(anchor, j, flip))
}

/// Every index a fan face uses lies in the ring it triangulates:
/// `anchor <= index < anchor + n`.
pub proof fn lemma_cap_fan_in_bounds(anchor: u32, n: u32, flip: bool)
    requires
        n >= 3,
        anchor + n <= u32::MAX,
    ensures
        forall|j: int| 0 <= j < cap_fan_view(anchor, n, flip).len() ==> {
            let f = #[trigger] cap_fan_view(anchor, n, flip)[j];
            anchor <= f.a < anchor + n && anchor <= f.b < anchor + n && anchor <= f.c < anchor
                + n
        },
{
}

/// Triangulates the ring of `n` vertices that starts at index `anchor` as a
/// fan anchored at the ring's first vertex. `flip` reverses the winding for
/// the cap that faces the other way. A ring of exactly 3 vertices yields the
/// single triangle `(anchor, anchor + 1, anchor + 2)`.
pub fn cap_triangles(anchor: u32, n: u32, flip: bool) -> (fs: Vec<Face>)
    requires
        n >= 3,
        anchor + n <= u32::MAX,
    ensures
        fs@ == cap_fan_view(anchor, n, flip),
        fs@.len() == n - 2,
{
    let ghost model = cap_fan_view(anchor, n, flip);
    let mut fs: Vec<Face> = Vec::new();
    let mut i: u32 = 1;
    while i < n - 1
        invariant
            n >= 3,
            anchor + n <= u32::MAX,
            1 <= i <= n - 1,
            fs@.len() == i - 1,
            model == cap_fan_view(anchor, n, flip),
            fs@ =~= model.subrange(0, i - 1),
        decreases n - 1 - i,
    {
        if flip {
            fs.push(Face { a: anchor, b: anchor + i + 1, c: anchor + i });
        } else {
            fs.push(Face { a: anchor, b: anchor + i, c: anchor + i + 1 });
        }
        i += 1;
        assert(fs@ =~= model.subrange(0, i - 1));
    }
    assert(fs@ =~= model);
    fs
}

/// Triangle `k` of the side wall connecting a bottom ring that starts at
/// vertex index `bottom` to a vertically aligned top ring of the same size
/// `n` that starts at index `top`. Segment `i = k / 2` joins ring position
/// `i` to position `i + 1`, wrapping to `0` on the last segment; the even
/// triangle is `(bottom_i, bottom_next, top_i)` and the odd one
/// `(bottom_next, top_next, top_i)`.
pub open spec fn side_wall_face(bottom: u32, top: u32, n: u32, k: int) -> Face
    recommends
        n >= 3,
        0 <= k < 2 * n,
{
    let i = k / 2;
    let next = if i + 1 == n { 0int } else { i + 1 };
    if k % 2 == 0 {
        Face { a: (bottom + i) as u32, b: (bottom + next) as u32, c: (top + i) as u32 }
    } else {
        Face { a: (bottom + next) as u32, b: (top + next) as u32, c: (top + i) as u32 }
    }
}

/// The full side wall: `2n` triangles, two per angular segment, the closing
/// seam included.
pub open spec fn side_wall_view(bottom: u32, top: u32, n: u32) -> Seq<Face>
    recommends
        n >= 3,
{
    Seq::new(2 * n as nat, |k: int| side_wall_face(bottom, top, n, k))
}

/// Every index a side-wall face uses addresses one of the two rings it
/// connects.
pub proof fn lemma_side_wall_in_bounds(bottom: u32, top: u32, n: u32)
    requires
        n >= 3,
        bottom + n <= u32::MAX,
        top + n <= u32::MAX,
    ensures
        forall|k: int| 0 <= k < side_wall_view(bottom, top, n).len() ==> {
            let f = #[trigger] side_wall_view(bottom, top, n)[k];
            &&& (bottom <= f.a < bottom + n || top <= f.a < top + n)
            &&& (bottom <= f.b < bottom + n || top <= f.b < top + n)
            &&& (bottom <= f.c < bottom + n || top <= f.c < top + n)
        },
{
}

/// Triangulates the side wall between a bottom ring starting at vertex
/// index `bottom` and a vertically aligned top ring of the same size `n`
/// starting at index `top`: the main loop walks the `n - 1` plain segments,
/// then the seam quad that closes the last segment back to the first is
/// emitted as an explicit final pair, giving `2n` triangles in all.
pub fn side_wall_triangles(bottom: u32, top: u32, n: u32) -> (fs: Vec<Face>)
    requires
        n >= 3,
        bottom + n <= u32::MAX,
        top + n <= u32::MAX,
    ensures
        fs@ == side_wall_view(bottom, top, n),
        fs@.len() == 2 * n,
{
    let ghost model = side_wall_view(bottom, top, n);
    let mut fs: Vec<Face> = Vec::new();
    let mut i: u32 = 0;
    while i < n - 1
        invariant
            n >= 3,
            bottom + n <= u32::MAX,
            top + n <= u32::MAX,
            i <= n - 1,
            fs@.len() == 2 * i,
            model == side_wall_view(bottom, top, n),
            fs@ =~= model.subrange(0, 2 * i),
        decreases n - 1 - i,
    {
        fs.push(Face { a: bottom + i, b: bottom + i + 1, c: top + i });
        fs.push(Face { a: bottom + i + 1, b: top + i + 1, c: top + i });
        i += 1;
        assert(side_wall_face(bottom, top, n, 2 * i - 2) == fs@[2 * i - 2]);
        assert(side_wall_face(bottom, top, n, 2 * i - 1) == fs@[2 * i - 1]);
        assert(fs@ =~= model.subrange(0, 2 * i));
    }
    fs.push(Face { a: bottom + n - 1, b: bottom, c: top + n - 1 });
    fs.push(Face { a: bottom, b: top, c: top + n - 1 });
    assert(side_wall_face(bottom, top, n, 2 * n - 2) == fs@[2 * n - 2]);
    assert(side_wall_face(bottom, top, n, 2 * n - 1) == fs@[2 * n - 1]);
    assert(fs@ =~= model);
    fs
}

/// The vertex sequence of the capped cylinder: four batches over the same
/// generating circle — bottom cap, top cap, side bottom, side top — each a
/// full ring, concatenated and then indexed in one pass.
pub open spec fn capped_vertices(
    points: Seq<RingPointView>,
    y_bottom: Seq<char>,
    y_top: Seq<char>,
) -> Seq<VertexView> {
    reindexed(
        ring_view(points, y_bottom) + ring_view(points, y_top) + ring_view(points, y_bottom)
            + ring_view(points, y_top),
    )
}

/// The normal sequence of the capped cylinder, batch for batch parallel to
/// the vertex sequence: downward flat normals for the bottom cap, upward
/// for the top cap, and radial normals for both side rings.
pub open spec fn capped_normals(points: Seq<RingPointView>) -> Seq<NormalView> {
    flat_normals_view(points.len(), "-1"@) + flat_normals_view(points.len(), "1"@)
        + radial_normals_view(points) + radial_normals_view(points)
}

/// The face sequence of the capped cylinder: the bottom cap fan over the
/// first ring, the top cap fan over the second ring with reversed winding,
/// then the side wall over the two dedicated side rings.
pub open spec fn capped_faces(n: u32) -> Seq<Face>
    recommends
        n >= 3,
{
    cap_fan_view(0, n, false) + cap_fan_view(n, n, true) + side_wall_view((2 * n) as u32, (3 * n) as u32, n)
}

/// Every face of the capped cylinder references one of its `4n` vertices.
pub proof fn lemma_capped_faces_in_bounds(n: u32)
    requires
        n >= 3,
        4 * n <= u32::MAX,
    ensures
        capped_faces(n).len() == 4 * n - 4,
        forall|k: int| 0 <= k < capped_faces(n).len() ==> {
            let f = #[trigger] capped_faces(n)[k];
            f.a < 4 * n && f.b < 4 * n && f.c < 4 * n
        },
{
    lemma_cap_fan_in_bounds(0, n, false);
    lemma_cap_fan_in_bounds(n, n, true);
    lemma_side_wall_in_bounds((2 * n) as u32, (3 * n) as u32, n);
}

/// Builds the whole capped-cylinder mesh over one generating circle.
///
/// `points` samples the circle in increasing angular order; its length is
/// the angular precision. The same geometric ring is duplicated into four
/// shading batches so that cap corners and wall corners at the same point
/// carry different normals, one normal standing per final vertex index.
/// A precision below `MIN_PRECISION` is rejected before any vertex is
/// generated.
pub fn build_capped_cylinder(points: &Vec<RingPoint>, y_bottom: &str, y_top: &str) -> (r: Result<
    Mesh,
    PrecisionError,
>)
    requires
        4 * points@.len() <= u32::MAX,
    ensures
        r is Ok <==> points@.len() >= MIN_PRECISION,
        r is Err ==> r->Err_0.given == points@.len() as u32,
        r matches Ok(m) ==> {
            let pts = ring_points_view(points@);
            let n = points@.len() as u32;
            &&& m@.vertices == capped_vertices(pts, y_bottom@, y_top@)
            &&& m@.normals == capped_normals(pts)
            &&& m@.faces == capped_faces(n)
            &&& m@.vertices.len() == 4 * n
            &&& m@.normals.len() == m@.vertices.len()
            &&& m@.well_formed()
        },
{
    let ghost pts = ring_points_view(points@);
    if points.len() < MIN_PRECISION as usize {
        return Err(PrecisionError { given: points.len() as u32 });
    }
    let n = points.len() as u32;

    let mut vertices = build_ring(points, y_bottom);
    let mut top_cap_ring = build_ring(points, y_top);
    let mut side_bottom_ring = build_ring(points, y_bottom);
    let mut side_top_ring = build_ring(points, y_top);
    vertices.append(&mut top_cap_ring);
    vertices.append(&mut side_bottom_ring);
    vertices.append(&mut side_top_ring);
    assert(vertices_view(vertices@) =~= ring_view(pts, y_bottom@) + ring_view(pts, y_top@)
        + ring_view(pts, y_bottom@) + ring_view(pts, y_top@));
    assign_indices(&mut vertices);
    assert(vertices_view(vertices@) == capped_vertices(pts, y_bottom@, y_top@));

    let mut normals = flat_normals(points.len(), "-1");
    let mut up = flat_normals(points.len(), "1");
    let mut side_bottom_normals = radial_normals(points);
    let mut side_top_normals = radial_normals(points);
    normals.append(&mut up);
    normals.append(&mut side_bottom_normals);
    normals.append(&mut side_top_normals);
    assert(normals_view(normals@) =~= capped_normals(pts));

    let mut faces = cap_triangles(0, n, false);
    let mut top_fan = cap_triangles(n, n, true);
    let mut side = side_wall_triangles(2 * n, 3 * n, n);
    faces.append(&mut top_fan);
    faces.append(&mut side);
    assert(faces@ =~= capped_faces(n));

    let mesh = Mesh { vertices, normals, faces };
    proof {
        lemma_capped_faces_in_bounds(n);
        assert(mesh@.vertices =~= capped_vertices(pts, y_bottom@, y_top@));
        assert(mesh@.normals =~= capped_normals(pts));
    }
    Ok(mesh)
}

} // verus!
