//! Meshes: vertex data, attribute layout and triangle indices, with
//! construction-time validation, layout derivation, and the per-frame
//! transform that produces the flat buffers the rendering backend uploads.

use crate::pose::{Pose, Vec3Words};
use crate::vecmath::{rotate_words, rotated_words, translate_words, translated_words};
use vstd::prelude::*;

verus! {

/// Size in bytes of one vertex component word (a 32-bit float on the
/// backend's side; this crate carries components as opaque 32-bit words).
pub const COMPONENT_BYTES: usize = 4;

/// Sum of the attribute sizes of `layout`, as a mathematical integer.
pub open spec fn layout_sum(layout: Seq<usize>) -> int
    decreases layout.len(),
{
    if layout.len() == 0 {
        0
    } else {
        layout_sum(layout.drop_last()) + layout.last()
    }
}

/// Taking one more entry adds exactly that entry to the running sum.
proof fn lemma_layout_sum_take_succ(layout: Seq<usize>, i: int)
    requires
        0 <= i < layout.len(),
    ensures
        layout_sum(layout.take(i + 1)) == layout_sum(layout.take(i)) + layout[i],
{
    let t = layout.take(i + 1);
    assert(t.drop_last() =~= layout.take(i));
    assert(t.last() == layout[i]);
}

/// A prefix never sums to more than the whole layout: the entries are
/// non-negative.
proof fn lemma_layout_sum_take_le(layout: Seq<usize>, i: int)
    requires
        0 <= i <= layout.len(),
    ensures
        layout_sum(layout.take(i)) <= layout_sum(layout),
    decreases layout.len() - i,
{
    if i == layout.len() {
        assert(layout.take(i) =~= layout);
    } else {
        lemma_layout_sum_take_succ(layout, i);
        lemma_layout_sum_take_le(layout, i + 1);
    }
}

/// Byte offset of attribute `i` within one interleaved vertex: the size of a
/// component times the number of components of the attributes before it.
pub open spec fn attribute_offset(layout: Seq<usize>, i: int) -> int {
    COMPONENT_BYTES * layout_sum(layout.take(i))
}

/// For each attribute of `layout`, its byte offset within one interleaved
/// vertex and its component count, in declaration order.
///
/// For layout `[3, 2]` this yields `[(0, 3), (12, 2)]`.
pub fn attribute_offsets(layout: &Vec<usize>) -> (r: Vec<(usize, usize)>)
    requires
        COMPONENT_BYTES * layout_sum(layout@) <= usize::MAX,
    ensures
        r@.len() == layout@.len(),
        forall|i: int|
            0 <= i < layout@.len() ==> (#[trigger] r@[i]).0 == attribute_offset(layout@, i)
                && r@[i].1 == layout@[i],
{
    let mut r: Vec<(usize, usize)> = Vec::new();
    let mut off: usize = 0;
    let mut i: usize = 0;
    while i < layout.len()
        invariant
            i <= layout@.len(),
            r@.len() == i,
            off == COMPONENT_BYTES * layout_sum(layout@.take(i as int)),
            COMPONENT_BYTES * layout_sum(layout@) <= usize::MAX,
            forall|j: int|
                0 <= j < i ==> (#[trigger] r@[j]).0 == attribute_offset(layout@, j)
                    && r@[j].1 == layout@[j],
        decreases layout@.len() - i,
    {
        proof {
            lemma_layout_sum_take_succ(layout@, i as int);
            lemma_layout_sum_take_le(layout@, i + 1);
        }
        r.push((off, layout[i]));
        off = off + COMPONENT_BYTES * layout[i];
        i = i + 1;
    }
    r
}

/// Byte distance between the starts of two consecutive interleaved vertices:
/// the size of a component times the total component count of the layout.
///
/// For layout `[3, 2]` this yields `20`.
pub fn stride(layout: &Vec<usize>) -> (r: usize)
    requires
        COMPONENT_BYTES * layout_sum(layout@) <= usize::MAX,
    ensures
        r == COMPONENT_BYTES * layout_sum(layout@),
{
    proof {
        lemma_layout_sum_nonneg(layout@);
    }
    COMPONENT_BYTES * layout_total(layout)
}

/// Sum of the attribute sizes of `layout`, as an executable value.
fn layout_total(layout: &Vec<usize>) -> (r: usize)
    requires
        layout_sum(layout@) <= usize::MAX,
    ensures
        r == layout_sum(layout@),
{
    let mut total: usize = 0;
    let mut i: usize = 0;
    while i < layout.len()
        invariant
            i <= layout@.len(),
            total == layout_sum(layout@.take(i as int)),
            layout_sum(layout@) <= usize::MAX,
        decreases layout@.len() - i,
    {
        proof {
            lemma_layout_sum_take_succ(layout@, i as int);
            lemma_layout_sum_take_le(layout@, i + 1);
        }
        total = total + layout[i];
        i = i + 1;
    }
    proof {
        assert(layout@.take(layout@.len() as int) =~= layout@);
    }
    total
}

/// One triangle of a mesh: three indices into the vertex list.
#[derive(Clone, Copy, PartialEq, Eq, Structural, Debug)]
pub struct Triangle {
    pub a: u32,
    pub b: u32,
    pub c: u32,
}

/// Why a mesh could not be constructed.
#[derive(Clone, Copy, PartialEq, Eq, Structural, Debug)]
pub enum MeshError {
    /// Some vertex's component count (`expected`) differs from the sum of
    /// the attribute sizes (`actual`).
    AttributeSumMismatch { expected: usize, actual: usize },
    /// Triangle number `triangle_index` refers to vertex `vertex_index`,
    /// which is not below `vertex_count`.
    IndexOutOfRange { triangle_index: usize, vertex_index: u32, vertex_count: usize },
}

/// All three indices of `t` fall within a vertex list of length `n`.
pub open spec fn triangle_in_range(t: Triangle, n: int) -> bool {
    t.a < n && t.b < n && t.c < n
}

/// The first of `t`'s indices, in `a`, `b`, `c` order, that does not fall
/// within a vertex list of length `n`.
pub open spec fn first_out_of_range(t: Triangle, n: int) -> u32
    recommends
        !triangle_in_range(t, n),
{
    if t.a >= n {
        t.a
    } else if t.b >= n {
        t.b
    } else {
        t.c
    }
}

/// Every vertex of `vs` has exactly `c` components.
pub open spec fn vertices_sized(vs: Seq<Vec<u32>>, c: int) -> bool {
    forall|i: int| 0 <= i < vs.len() ==> (#[trigger] vs[i])@.len() == c
}

/// Every triangle of `ts` indexes within a vertex list of length `n`.
pub open spec fn triangles_in_range(ts: Seq<Triangle>, n: int) -> bool {
    forall|t: int| 0 <= t < ts.len() ==> triangle_in_range(#[trigger] ts[t], n)
}

/// A mesh: an ordered vertex list (insertion order is draw order), the
/// declared partition of each vertex's components into attributes, and the
/// triangle index list.  The base data never changes after construction;
/// the per-frame transform derives a fresh buffer each call.
pub struct Mesh {
    /// The vertices, each a list of opaque 32-bit component words.
    pub vertices: Vec<Vec<u32>>,
    /// The attribute sizes: entry `i` is the number of consecutive
    /// components belonging to attribute `i`.
    pub vert_attr: Vec<usize>,
    /// The triangles, each indexing into `vertices`.
    pub indices: Vec<Triangle>,
}

impl Mesh {
    /// Components per vertex: the sum of the attribute sizes.
    pub open spec fn component_count(self) -> int {
        layout_sum(self.vert_attr@)
    }

    /// The invariant established by [`Mesh::new`]: at least one vertex,
    /// every vertex sized to the layout, every triangle index in range, and
    /// a byte stride that fits a `usize`.
    pub open spec fn wf(self) -> bool {
        &&& self.vertices@.len() > 0
        &&& COMPONENT_BYTES * layout_sum(self.vert_attr@) <= usize::MAX
        &&& vertices_sized(self.vertices@, self.component_count())
        &&& triangles_in_range(self.indices@, self.vertices@.len() as int)
    }

    /// Validates the three inputs and assembles a mesh from them.
    ///
    /// Construction succeeds exactly when every vertex has as many
    /// components as the attribute sizes sum to and every triangle index
    /// names an existing vertex.  A failed validation reports the first
    /// offence, vertices first.
    pub fn new(vertices: Vec<Vec<u32>>, vert_attr: Vec<usize>, indices: Vec<Triangle>) -> (r:
        Result<Mesh, MeshError>)
        requires
            vertices@.len() > 0,
            COMPONENT_BYTES * layout_sum(vert_attr@) <= usize::MAX,
        ensures
            r matches Ok(m) ==> m.vertices@ == vertices@ && m.vert_attr@ == vert_attr@
                && m.indices@ == indices@ && m.wf(),
            r is Ok <==> vertices_sized(vertices@, layout_sum(vert_attr@)) && triangles_in_range(
                indices@,
                vertices@.len() as int,
            ),
            r matches Err(MeshError::AttributeSumMismatch { expected, actual }) ==> actual
                == layout_sum(vert_attr@) && expected != actual && exists|i: int|
                0 <= i < vertices@.len() && (#[trigger] vertices@[i])@.len() == expected && (forall|
                    j: int,
                |
                    0 <= j < i ==> (#[trigger] vertices@[j])@.len() == actual),
            !vertices_sized(vertices@, layout_sum(vert_attr@)) ==> r matches Err(
                MeshError::AttributeSumMismatch { .. },
            ),
            r matches Err(MeshError::IndexOutOfRange { triangle_index, vertex_index, vertex_count })
                ==> vertex_count == vertices@.len() && triangle_index < indices@.len()
                && !triangle_in_range(indices@[triangle_index as int], vertex_count as int)
                && vertex_index == first_out_of_range(
                indices@[triangle_index as int],
                vertex_count as int,
            ) && (forall|j: int|
                0 <= j < triangle_index ==> triangle_in_range(
                    #[trigger] indices@[j],
                    vertex_count as int,
                )),
    {
        let total = layout_total(&vert_attr);
        let mut i: usize = 0;
        while i < vertices.len()
            invariant
                i <= vertices@.len(),
                total == layout_sum(vert_attr@),
                forall|j: int| 0 <= j < i ==> (#[trigger] vertices@[j])@.len() == total,
            decreases vertices@.len() - i,
        {
            if vertices[i].len() != total {
                return Err(MeshError::AttributeSumMismatch {
                    expected: vertices[i].len(),
                    actual: total,
                });
            }
            i = i + 1;
        }
        let n = vertices.len();
        let mut t: usize = 0;
        while t < indices.len()
            invariant
                t <= indices@.len(),
                n == vertices@.len(),
                vertices_sized(vertices@, layout_sum(vert_attr@)),
                forall|j: int| 0 <= j < t ==> triangle_in_range(#[trigger] indices@[j], n as int),
            decreases indices@.len() - t,
        {
            let tri = indices[t];
            if tri.a as usize >= n || tri.b as usize >= n || tri.c as usize >= n {
                return Err(MeshError::IndexOutOfRange {
                    triangle_index: t,
                    vertex_index: if tri.a as usize >= n {
                        tri.a
                    } else if tri.b as usize >= n {
                        tri.b
                    } else {
                        tri.c
                    },
                    vertex_count: n,
                });
            }
            t = t + 1;
        }
        Ok(Mesh { vertices, vert_attr, indices })
    }

    /// How many vertices the mesh has.
    pub fn vertex_count(&self) -> (r: usize)
        ensures
            r == self.vertices@.len(),
    {
        self.vertices.len()
    }

    /// Components per vertex, as an executable value.
    pub fn components_per_vertex(&self) -> (r: usize)
        requires
            self.wf(),
        ensures
            r == self.component_count(),
    {
        proof {
            lemma_layout_sum_nonneg(self.vert_attr@);
        }
        layout_total(&self.vert_attr)
    }

    /// The base vertices as one flat word buffer, vertex after vertex, ready
    /// for upload.
    pub fn flat_vertices(&self) -> (out: Vec<u32>)
        requires
            self.wf(),
        ensures
            out@.len() == self.vertices@.len() * self.component_count(),
            forall|i: int, j: int|
                0 <= i < self.vertices@.len() && 0 <= j < self.component_count() ==> #[trigger] out@[i
                    * self.component_count() + j] == self.vertices@[i]@[j],
    {
        let ghost c = self.component_count();
        let mut out: Vec<u32> = Vec::new();
        let mut i: usize = 0;
        while i < self.vertices.len()
            invariant
                self.wf(),
                c == self.component_count(),
                i <= self.vertices@.len(),
                out@.len() == i * c,
                forall|k: int, j: int|
                    0 <= k < i && 0 <= j < c ==> #[trigger] out@[k * c + j]
                        == self.vertices@[k]@[j],
            decreases self.vertices@.len() - i,
        {
            let vertex = &self.vertices[i];
            let ghost out_before = out@;
            let mut j: usize = 0;
            while j < vertex.len()
                invariant
                    j <= vertex@.len(),
                    out@ == out_before + vertex@.take(j as int),
                decreases vertex@.len() - j,
            {
                proof {
                    assert(vertex@.take(j + 1).drop_last() =~= vertex@.take(j as int));
                }
                out.push(vertex[j]);
                proof {
                    assert(out@ =~= out_before + vertex@.take(j + 1));
                }
                j = j + 1;
            }
            proof {
                assert(vertex@.take(vertex@.len() as int) =~= vertex@);
                lemma_block_append(out_before, vertex@, i as int, c);
            }
            i = i + 1;
        }
        out
    }

    /// The transformed vertices as one flat word buffer, vertex after
    /// vertex, ready for upload: each vertex's three-component position
    /// prefix is rotated by the pose's angle about its axis and then
    /// translated by its position, and the remaining components are copied
    /// unchanged.  The mesh's base data is not touched; the transform is
    /// recomputed from it on every call.
    ///
    /// Defined for meshes whose leading attribute is a three-component
    /// position, which is what the rotation acts on.
    pub fn transformed_vertices(&self, pose: &Pose) -> (out: Vec<u32>)
        requires
            self.wf(),
            self.vert_attr@.len() > 0,
            self.vert_attr@[0] == 3,
        ensures
            out@.len() == self.vertices@.len() * self.component_count(),
            forall|i: int, j: int|
                0 <= i < self.vertices@.len() && 0 <= j < self.component_count()
                    ==> #[trigger] out@[i * self.component_count() + j] == transformed_vertex(
                    self.vertices@[i]@,
                    *pose,
                )[j],
    {
        let ghost c = self.component_count();
        proof {
            lemma_layout_sum_take_succ(self.vert_attr@, 0);
            lemma_layout_sum_take_le(self.vert_attr@, 1);
            assert(self.vert_attr@.take(0) =~= Seq::<usize>::empty());
        }
        let mut out: Vec<u32> = Vec::new();
        let mut i: usize = 0;
        while i < self.vertices.len()
            invariant
                self.wf(),
                self.vert_attr@.len() > 0,
                self.vert_attr@[0] == 3,
                c == self.component_count(),
                c >= 3,
                i <= self.vertices@.len(),
                out@.len() == i * c,
                forall|k: int, j: int|
                    0 <= k < i && 0 <= j < c ==> #[trigger] out@[k * c + j] == transformed_vertex(
                        self.vertices@[k]@,
                        *pose,
                    )[j],
            decreases self.vertices@.len() - i,
        {
            let vertex = &self.vertices[i];
            let ghost out_before = out@;
            let ghost tv = transformed_vertex(vertex@, *pose);
            let rot = rotate_words(
                Vec3Words { x: vertex[0], y: vertex[1], z: vertex[2] },
                pose.angle,
                pose.axis,
            );
            let tr = translate_words(rot, pose.position);
            out.push(tr.x);
            out.push(tr.y);
            out.push(tr.z);
            proof {
                assert(tv.len() == vertex@.len());
                assert(out@ =~= out_before + tv.take(3));
            }
            let mut j: usize = 3;
            while j < vertex.len()
                invariant
                    3 <= j <= vertex@.len(),
                    tv == transformed_vertex(vertex@, *pose),
                    vertex@.len() >= 3,
                    tv.len() == vertex@.len(),
                    out@ == out_before + tv.take(j as int),
                decreases vertex@.len() - j,
            {
                proof {
                    assert(tv[j as int] == vertex@[j as int]);
                    assert(tv.take(j + 1).drop_last() =~= tv.take(j as int));
                }
                out.push(vertex[j]);
                proof {
                    assert(out@ =~= out_before + tv.take(j + 1));
                }
                j = j + 1;
            }
            proof {
                assert(tv.take(tv.len() as int) =~= tv);
                lemma_block_append(out_before, tv, i as int, c);
            }
            i = i + 1;
        }
        out
    }

    /// The triangle indices as one flat buffer, three entries per triangle
    /// in `a`, `b`, `c` order, ready for upload.  Indices are never
    /// transformed: the output is exactly the mesh's index list.
    pub fn flat_indices(&self) -> (out: Vec<u32>)
        ensures
            out@.len() == 3 * self.indices@.len(),
            forall|t: int|
                0 <= t < self.indices@.len() ==> #[trigger] out@[3 * t] == self.indices@[t].a
                    && out@[3 * t + 1] == self.indices@[t].b && out@[3 * t + 2]
                    == self.indices@[t].c,
    {
        let mut out: Vec<u32> = Vec::new();
        let mut t: usize = 0;
        while t < self.indices.len()
            invariant
                t <= self.indices@.len(),
                out@.len() == 3 * t,
                forall|k: int|
                    0 <= k < t ==> #[trigger] out@[3 * k] == self.indices@[k].a && out@[3 * k + 1]
                        == self.indices@[k].b && out@[3 * k + 2] == self.indices@[k].c,
            decreases self.indices@.len() - t,
        {
            let tri = self.indices[t];
            let ghost out_before = out@;
            out.push(tri.a);
            out.push(tri.b);
            out.push(tri.c);
            proof {
                assert(out@ =~= out_before + seq![tri.a, tri.b, tri.c]);
                assert(out@[3 * t] == tri.a);
                assert(out@[3 * t + 1] == tri.b);
                assert(out@[3 * t + 2] == tri.c);
            }
            t = t + 1;
        }
        out
    }
}

/// The vertex `v` after the pose transform: its three-component position
/// prefix rotated by `pose.angle` about `pose.axis` and then translated by
/// `pose.position`, followed by its remaining components unchanged.
///
/// Rotation comes first: it acts about the mesh-local origin, and the
/// translation then repositions the whole mesh.
pub open spec fn transformed_vertex(v: Seq<u32>, pose: Pose) -> Seq<u32>
    recommends
        v.len() >= 3,
{
    let r = rotated_words(v[0], v[1], v[2], pose.angle, pose.axis.x, pose.axis.y, pose.axis.z);
    let t = translated_words(r.0, r.1, r.2, pose.position.x, pose.position.y, pose.position.z);
    seq![t.0, t.1, t.2] + v.skip(3)
}

/// Law: at any pose, a transformed vertex has as many components as the
/// base vertex, and every component after the three-component position
/// prefix is copied unchanged — the transform only ever moves positions.
pub proof fn lemma_transform_preserves_tail(v: Seq<u32>, pose: Pose)
    requires
        v.len() >= 3,
    ensures
        transformed_vertex(v, pose).len() == v.len(),
        forall|j: int| 3 <= j < v.len() ==> #[trigger] transformed_vertex(v, pose)[j] == v[j],
{
}

/// Law: under a pose whose rotation and translation leave a vertex's
/// position words unchanged — as a pose with angle zero and position zero
/// does — the transformed vertex is the base vertex, exactly.
pub proof fn lemma_transformed_vertex_identity(v: Seq<u32>, pose: Pose)
    requires
        v.len() >= 3,
        rotated_words(v[0], v[1], v[2], pose.angle, pose.axis.x, pose.axis.y, pose.axis.z) == (
        v[0],
        v[1],
        v[2],
        ),
        translated_words(v[0], v[1], v[2], pose.position.x, pose.position.y, pose.position.z) == (
        v[0],
        v[1],
        v[2],
        ),
    ensures
        transformed_vertex(v, pose) == v,
{
    assert(transformed_vertex(v, pose) =~= v);
}

/// Sums of non-negative entries are non-negative.
proof fn lemma_layout_sum_nonneg(layout: Seq<usize>)
    ensures
        layout_sum(layout) >= 0,
    decreases layout.len(),
{
    if layout.len() > 0 {
        lemma_layout_sum_nonneg(layout.drop_last());
    }
}

/// Appending one `c`-sized block to a buffer of `i` such blocks yields the
/// indexing facts for block `i` and keeps those for the blocks before it.
proof fn lemma_block_append(pre: Seq<u32>, block: Seq<u32>, i: int, c: int)
    requires
        0 <= i,
        0 <= c,
        pre.len() == i * c,
        block.len() == c,
    ensures
        (pre + block).len() == (i + 1) * c,
        forall|j: int| 0 <= j < c ==> (pre + block)[i * c + j] == block[j],
        forall|k: int, j: int|
            0 <= k < i && 0 <= j < c ==> #[trigger] (pre + block)[k * c + j] == pre[k * c + j],
{
    assert((i + 1) * c == i * c + c) by (nonlinear_arith);
    assert forall|j: int| 0 <= j < c implies (pre + block)[i * c + j] == block[j] by {
        assert(i * c + j >= pre.len());
    }
    assert forall|k: int, j: int|
        0 <= k < i && 0 <= j < c implies #[trigger] (pre + block)[k * c + j] == pre[k * c
        + j] by {
        assert(0 <= k * c + j < i * c) by (nonlinear_arith)
            requires
                0 <= k < i,
                0 <= j < c,
        ;
    }
}

} // verus!
