//! Serialization of a completed mesh to the plain-text geometry format:
//! one `v` directive per vertex, one `vn` directive per normal when normals
//! are present, then one `f` directive per triangle with 1-based indices,
//! all joined by single newlines with no trailing newline.

use vstd::prelude::*;
use vstd::string::StringExecFns;
use crate::mesh::{Face, Mesh, MeshView, Normal, NormalView, Vertex, VertexView};

verus! {

/// The decimal digit character for `d`.
pub open spec fn dec_digit(d: int) -> char
    recommends
        0 <= d < 10,
{
    if d == 0 {
        '0'
    } else if d == 1 {
        '1'
    } else if d == 2 {
        '2'
    } else if d == 3 {
        '3'
    } else if d == 4 {
        '4'
    } else if d == 5 {
        '5'
    } else if d == 6 {
        '6'
    } else if d == 7 {
        '7'
    } else if d == 8 {
        '8'
    } else {
        '9'
    }
}

/// The decimal numeral of `n`: most significant digit first, no sign, no
/// leading zeroes (the numeral of zero is the single digit `0`).
pub open spec fn dec_rep(n: nat) -> Seq<char>
    decreases n,
{
    if n < 10 {
        seq![dec_digit(n as int)]
    } else {
        dec_rep(n / 10) + seq![dec_digit((n % 10) as int)]
    }
}

/// One decimal digit as a string slice.
fn digit_str(d: u32) -> (s: &'static str)
    requires
        d < 10,
    ensures
        s@ == seq![dec_digit(d as int)],
{
    if d == 0 {
        proof {
            reveal_strlit("0");
        }
        assert("0"@ =~= seq![dec_digit(0)]);
        "0"
    } else if d == 1 {
        proof {
            reveal_strlit("1");
        }
        assert("1"@ =~= seq![dec_digit(1)]);
        "1"
    } else if d == 2 {
        proof {
            reveal_strlit("2");
        }
        assert("2"@ =~= seq![dec_digit(2)]);
        "2"
    } else if d == 3 {
        proof {
            reveal_strlit("3");
        }
        assert("3"@ =~= seq![dec_digit(3)]);
        "3"
    } else if d == 4 {
        proof {
            reveal_strlit("4");
        }
        assert("4"@ =~= seq![dec_digit(4)]);
        "4"
    } else if d == 5 {
        proof {
            reveal_strlit("5");
        }
        assert("5"@ =~= seq![dec_digit(5)]);
        "5"
    } else if d == 6 {
        proof {
            reveal_strlit("6");
        }
        assert("6"@ =~= seq![dec_digit(6)]);
        "6"
    } else if d == 7 {
        proof {
            reveal_strlit("7");
        }
        assert("7"@ =~= seq![dec_digit(7)]);
        "7"
    } else if d == 8 {
        proof {
            reveal_strlit("8");
        }
        assert("8"@ =~= seq![dec_digit(8)]);
        "8"
    } else {
        proof {
            reveal_strlit("9");
        }
        assert("9"@ =~= seq![dec_digit(9)]);
        "9"
    }
}

/// Renders `n` as its decimal numeral.
pub fn u32_to_decimal(n: u32) -> (s: String)
    ensures
        s@ == dec_rep(n as nat),
    decreases n,
{
    if n < 10 {
        digit_str(n).to_owned()
    } else {
        let mut s = u32_to_decimal(n / 10);
        s.append(digit_str(n % 10));
        s
    }
}

/// The `v` directive for one vertex.
pub open spec fn vertex_line(v: VertexView) -> Seq<char> {
    "v "@ + v.x + " "@ + v.y + " "@ + v.z
}

/// The `vn` directive for one normal.
pub open spec fn normal_line(nm: NormalView) -> Seq<char> {
    "vn "@ + nm.x + " "@ + nm.y + " "@ + nm.z
}

/// One corner of a face directive: the 1-based vertex index, and in the
/// normal-aware form the same 1-based number again as the corner's normal
/// reference, in the `vertex//normal` slash-pair form.
pub open spec fn face_corner(i: u32, with_normals: bool) -> Seq<char> {
    if with_normals {
        dec_rep((i + 1) as nat) + "//"@ + dec_rep((i + 1) as nat)
    } else {
        dec_rep((i + 1) as nat)
    }
}

/// The `f` directive for one triangle.
pub open spec fn face_line(f: Face, with_normals: bool) -> Seq<char> {
    "f "@ + face_corner(f.a, with_normals) + " "@ + face_corner(f.b, with_normals) + " "@
        + face_corner(f.c, with_normals)
}

/// All directives of a mesh, in emission order: vertices, then normals when
/// present, then faces.
pub open spec fn mesh_lines(m: MeshView) -> Seq<Seq<char>> {
    m.vertices.map_values(|v: VertexView| vertex_line(v)) + m.normals.map_values(
        |nm: NormalView| normal_line(nm),
    ) + m.faces.map_values(|f: Face| face_line(f, m.normals.len() > 0))
}

/// Lines joined by single newlines, with no trailing newline.
pub open spec fn joined(lines: Seq<Seq<char>>) -> Seq<char>
    decreases lines.len(),
{
    if lines.len() == 0 {
        Seq::empty()
    } else if lines.len() == 1 {
        lines[0]
    } else {
        joined(lines.drop_last()) + "\n"@ + lines.last()
    }
}

/// The serialized text of a mesh.
pub open spec fn obj_text(m: MeshView) -> Seq<char> {
    joined(mesh_lines(m))
}

/// Extending a joined prefix by its next line appends a newline separator
/// exactly when a line came before it.
proof fn lemma_joined_step(lines: Seq<Seq<char>>, k: int)
    requires
        0 <= k < lines.len(),
    ensures
        joined(lines.subrange(0, k + 1)) == joined(lines.subrange(0, k)) + (if k > 0 {
            "\n"@
        } else {
            Seq::<char>::empty()
        }) + lines[k],
{
    let pre = lines.subrange(0, k + 1);
    if k == 0 {
        assert(joined(pre) == pre[0]);
        assert(joined(lines.subrange(0, 0)) == Seq::<char>::empty());
        assert(joined(lines.subrange(0, 0)) + Seq::<char>::empty() + lines[0] =~= lines[0]);
    } else {
        assert(pre.drop_last() =~= lines.subrange(0, k));
        assert(pre.last() == lines[k]);
    }
}

/// Builds the `v` directive of one vertex.
fn vertex_line_str(v: &Vertex) -> (s: String)
    ensures
        s@ == vertex_line(v@),
{
    let mut s = "v ".to_owned();
    s.append(v.x.as_str());
    s.append(" ");
    s.append(v.y.as_str());
    s.append(" ");
    s.append(v.z.as_str());
    s
}

/// Builds the `vn` directive of one normal.
fn normal_line_str(nm: &Normal) -> (s: String)
    ensures
        s@ == normal_line(nm@),
{
    let mut s = "vn ".to_owned();
    s.append(nm.x.as_str());
    s.append(" ");
    s.append(nm.y.as_str());
    s.append(" ");
    s.append(nm.z.as_str());
    s
}

/// Appends one face corner: the 1-based vertex index, doubled into the
/// slash-pair form when normals are present.
fn push_face_corner(out: &mut String, i: u32, with_normals: bool)
    requires
        i < u32::MAX,
    ensures
        final(out)@ == old(out)@ + face_corner(i, with_normals),
{
    let num = u32_to_decimal(i + 1);
    out.append(num.as_str());
    if with_normals {
        out.append("//");
        out.append(num.as_str());
    }
    assert(out@ =~= old(out)@ + face_corner(i, with_normals));
}

/// Builds the `f` directive of one triangle.
fn face_line_str(f: &Face, with_normals: bool) -> (s: String)
    requires
        f.a < u32::MAX,
        f.b < u32::MAX,
        f.c < u32::MAX,
    ensures
        s@ == face_line(*f, with_normals),
{
    let mut s = "f ".to_owned();
    push_face_corner(&mut s, f.a, with_normals);
    s.append(" ");
    push_face_corner(&mut s, f.b, with_normals);
    s.append(" ");
    push_face_corner(&mut s, f.c, with_normals);
    assert(s@ =~= face_line(*f, with_normals));
    s
}

impl Mesh {
    /// Serializes the mesh: every vertex directive in index order, then
    /// every normal directive when normals are present, then every face
    /// directive, joined by single newlines with no trailing newline.
    /// Serialization is total over a well-formed mesh.
    pub fn to_obj(&self) -> (s: String)
        requires
            self@.well_formed(),
        ensures
            s@ == obj_text(self@),
    {
        let ghost all = mesh_lines(self@);
        let nv = self.vertices.len();
        let nn = self.normals.len();
        let nf = self.faces.len();
        let with_normals = nn > 0;
        let mut out = String::new();

        let mut i: usize = 0;
        while i < nv
            invariant
                i <= nv,
                nv == self@.vertices.len(),
                all == mesh_lines(self@),
                out@ == joined(all.subrange(0, i as int)),
            decreases nv - i,
        {
            if i > 0 {
                out.append("\n");
            }
            let line = vertex_line_str(&self.vertices[i]);
            out.append(line.as_str());
            proof {
                lemma_joined_step(all, i as int);
                assert(all[i as int] == vertex_line(self@.vertices[i as int]));
                assert(out@ =~= joined(all.subrange(0, i + 1)));
            }
            i += 1;
        }

        let mut j: usize = 0;
        while j < nn
            invariant
                j <= nn,
                nv == self@.vertices.len(),
                nn == self@.normals.len(),
                all == mesh_lines(self@),
                out@ == joined(all.subrange(0, nv + j)),
            decreases nn - j,
        {
            if nv > 0 || j > 0 {
                out.append("\n");
            }
            let line = normal_line_str(&self.normals[j]);
            out.append(line.as_str());
            proof {
                lemma_joined_step(all, nv + j);
                assert(all[nv + j] == normal_line(self@.normals[j as int]));
                assert(out@ =~= joined(all.subrange(0, nv + j + 1)));
            }
            j += 1;
        }

        let mut k: usize = 0;
        while k < nf
            invariant
                k <= nf,
                nv == self@.vertices.len(),
                nn == self@.normals.len(),
                nf == self@.faces.len(),
                with_normals == (nn > 0),
                self@.well_formed(),
                all == mesh_lines(self@),
                out@ == joined(all.subrange(0, nv + nn + k)),
            decreases nf - k,
        {
            if nv > 0 || nn > 0 || k > 0 {
                out.append("\n");
            }
            let line = face_line_str(&self.faces[k], with_normals);
            out.append(line.as_str());
            proof {
                lemma_joined_step(all, nv + nn + k);
                assert(all[nv + nn + k] == face_line(self@.faces[k as int], nn > 0));
                assert(out@ =~= joined(all.subrange(0, nv + nn + k + 1)));
            }
            k += 1;
        }

        proof {
            assert(all.subrange(0, nv + nn + nf) =~= all);
        }
        out
    }
}

} // verus!
