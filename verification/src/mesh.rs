//! The mesh data model: vertices, normals, faces and the aggregate mesh.
//!
//! A coordinate is an already-rendered decimal token (a `String`); a face
//! refers to vertices by their 0-based position in the mesh's vertex
//! sequence, never by ownership.

use vstd::prelude::*;

verus! {

/// A point of the generating circle: the horizontal coordinates of one ring
/// vertex, as text tokens. Height is supplied separately when a ring is built.
#[derive(Debug)]
pub struct RingPoint {
    pub x: String,
    pub z: String,
}

/// Mathematical model of a `RingPoint`.
pub struct RingPointView {
    pub x: Seq<char>,
    pub z: Seq<char>,
}

impl View for RingPoint {
    type V = RingPointView;

    open spec fn view(&self) -> RingPointView {
        RingPointView { x: self.x@, z: self.z@ }
    }
}

/// A mesh vertex: a position and the 0-based index it holds in the final
/// concatenated vertex sequence. The index is meaningful only after
/// `assign_indices` has run over the full sequence.
#[derive(Debug)]
pub struct Vertex {
    pub x: String,
    pub y: String,
    pub z: String,
    pub index: u32,
}

/// Mathematical model of a `Vertex`.
pub struct VertexView {
    pub x: Seq<char>,
    pub y: Seq<char>,
    pub z: Seq<char>,
    pub index: u32,
}

impl View for Vertex {
    type V = VertexView;

    open spec fn view(&self) -> VertexView {
        VertexView { x: self.x@, y: self.y@, z: self.z@, index: self.index }
    }
}

/// A shading normal. Cap normals are the unit vertical vectors; side-wall
/// normals reuse the vertex's own horizontal position as a radial vector.
#[derive(Debug)]
pub struct Normal {
    pub x: String,
    pub y: String,
    pub z: String,
}

/// Mathematical model of a `Normal`.
pub struct NormalView {
    pub x: Seq<char>,
    pub y: Seq<char>,
    pub z: Seq<char>,
}

impl View for Normal {
    type V = NormalView;

    open spec fn view(&self) -> NormalView {
        NormalView { x: self.x@, y: self.y@, z: self.z@ }
    }
}

/// A triangle: an ordered triple of 0-based vertex indices. The order is the
/// winding order; a corner's normal reference equals its vertex index.
#[derive(Clone, Copy, PartialEq, Eq, Structural, Debug)]
pub struct Face {
    pub a: u32,
    pub b: u32,
    pub c: u32,
}

/// The aggregate mesh: vertices in final index order, an optional parallel
/// normal sequence, and the triangle faces.
#[derive(Debug)]
pub struct Mesh {
    pub vertices: Vec<Vertex>,
    pub normals: Vec<Normal>,
    pub faces: Vec<Face>,
}

/// Mathematical model of a `Mesh`.
pub struct MeshView {
    pub vertices: Seq<VertexView>,
    pub normals: Seq<NormalView>,
    pub faces: Seq<Face>,
}

/// The models of a sequence of circle points.
pub open spec fn ring_points_view(s: Seq<RingPoint>) -> Seq<RingPointView> {
    s.map_values(|p: RingPoint| p@)
}

/// The models of a sequence of vertices.
pub open spec fn vertices_view(s: Seq<Vertex>) -> Seq<VertexView> {
    s.map_values(|v: Vertex| v@)
}

/// The models of a sequence of normals.
pub open spec fn normals_view(s: Seq<Normal>) -> Seq<NormalView> {
    s.map_values(|n: Normal| n@)
}

impl View for Mesh {
    type V = MeshView;

    open spec fn view(&self) -> MeshView {
        MeshView {
            vertices: vertices_view(self.vertices@),
            normals: normals_view(self.normals@),
            faces: self.faces@,
        }
    }
}

impl MeshView {
    /// Every index a face uses lies inside the vertex sequence.
    pub open spec fn faces_in_bounds(self) -> bool {
        forall|k: int|
            0 <= k < self.faces.len() ==> {
                &&& (#[trigger] self.faces[k]).a < self.vertices.len()
                &&& self.faces[k].b < self.vertices.len()
                &&& self.faces[k].c < self.vertices.len()
            }
    }

    /// Well-formedness of a completed mesh: faces reference existing
    /// vertices, the vertex count leaves every 1-based reference
    /// representable, and when normals are present at all there is exactly
    /// one per vertex (a face corner reuses its vertex index as its normal
    /// index).
    pub open spec fn well_formed(self) -> bool {
        &&& self.vertices.len() <= u32::MAX
        &&& self.faces_in_bounds()
        &&& (self.normals.len() == 0 || self.normals.len() == self.vertices.len())
    }
}

} // verus!
