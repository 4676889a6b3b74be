//! The 2D batcher: accumulates vertices and batch ranges over a frame and
//! turns them into one ordered list of GPU commands per flush.
//!
//! Batch ranges are a run-length encoding of the primitive stream keyed on
//! `(mode, texture)`: a new range opens only when the incoming primitive's
//! key differs from the last open range's key, so merging is greedy and
//! never looks back past the most recent range.

use vstd::prelude::*;

use crate::canvas::Canvas;
use crate::fbits::ONE_BITS;
use crate::fbits::TWO_BITS;
use crate::fbits::f32_gt_zero;
use crate::fbits::f32_is_zero;
use crate::fbits::f32_is_zero_x;
use crate::fbits::f32_gt_zero_x;
use crate::fbits::f32_min_spec;
use crate::fbits::f32_min_x;
use crate::fbits::f32_neg;
use crate::fbits::f32_neg_x;
use crate::fbits::f32_of_u32;
use crate::fbits::f32_of_u32_x;
use crate::fbits::fadd;
use crate::fbits::fadd_x;
use crate::fbits::fdiv;
use crate::fbits::fdiv_x;
use crate::fbits::fmul;
use crate::fbits::fmul_x;
use crate::fbits::fsub;
use crate::fbits::fsub_x;
use crate::quad::Quad;
use crate::texture::Texture;
use crate::vertex::shape_vertex;
use crate::vertex::texture_vertex;
use crate::matrix::identity_matrix;
use crate::matrix::identity_matrix_x;
use crate::matrix::mat_mul;
use crate::matrix::mat_mul_x;
use crate::matrix::ortho_matrix;
use crate::matrix::ortho_matrix_x;
use crate::matrix::scale_matrix;
use crate::matrix::scale_matrix_x;
use crate::matrix::translation_matrix;
use crate::matrix::translation_matrix_x;
use crate::vertex::Vertex;

verus! {

/// One step of the boundary contract with the graphics back end: the
/// platform layer executes these in order against the real GPU.  Scalar
/// payloads are single-precision bit patterns.
pub enum GpuCommand {
    /// Upload the whole vertex buffer in one transfer.
    UploadVertices { vertices: Vec<Vertex> },
    /// Set the projection-matrix uniform (column-major).
    SetMatrixUniform { matrix: [u32; 16] },
    /// Bind the texture and point the sampler uniform at it.
    BindTexture { texture: u32 },
    /// Unbind any texture.
    UnbindTexture,
    /// Draw the triangle list over `[start, start + count)`.
    DrawTriangles { start: u32, count: u32 },
    /// Resize the viewport.
    SetViewport { width: u32, height: u32 },
    /// Redirect drawing to an off-screen framebuffer.
    BindFramebuffer { framebuffer: u32 },
    /// Restore drawing to the default framebuffer.
    UnbindFramebuffer,
}

/// The state-binding command a batch starts with: bind its texture, or
/// unbind if it has none.
pub open spec fn bind_command(b: Batch) -> GpuCommand {
    match b.texture {
        Option::Some(t) => GpuCommand::BindTexture { texture: t },
        Option::None => GpuCommand::UnbindTexture,
    }
}

/// How many commands a flush of this frame state issues: one upload if any
/// vertices are pending, then, if any batch is pending, one matrix upload
/// and a bind plus a draw per batch.
pub open spec fn flush_len(vs: Seq<Vertex>, bs: Seq<Batch>) -> int {
    (if vs.len() > 0 {
        1int
    } else {
        0int
    }) + (if bs.len() > 0 {
        1 + 2 * (bs.len() as int)
    } else {
        0int
    })
}

/// Whether `cmds` is exactly the command list that flushing the frame
/// state `(vs, bs, m)` issues: the full vertex upload (if any vertices are
/// pending), then the projection matrix followed by one texture binding
/// and one draw call per batch, in batch order.
#[verifier::opaque]
pub open spec fn is_flush_of(
    cmds: Seq<GpuCommand>,
    vs: Seq<Vertex>,
    bs: Seq<Batch>,
    m: Seq<u32>,
) -> bool {
    let u: int = if vs.len() > 0 {
        1int
    } else {
        0int
    };
    &&& cmds.len() == flush_len(vs, bs)
    &&& (vs.len() > 0 ==> (cmds[0] matches GpuCommand::UploadVertices { vertices } && vertices@
        == vs))
    &&& (bs.len() > 0 ==> (cmds[u] matches GpuCommand::SetMatrixUniform { matrix } && matrix@
        == m))
    &&& (forall|i: int| 0 <= i < bs.len() ==> cmds[u + 1 + 2 * i] == bind_command(#[trigger] bs[i]))
    &&& (forall|i: int|
        0 <= i < bs.len() ==> cmds[u + 2 + 2 * i] == (GpuCommand::DrawTriangles {
            start: (#[trigger] bs[i]).indices_start,
            count: bs[i].indices_count,
        }))
}

/// Appending two commands to a list leaves its prefix intact.
proof fn lemma_take_of_two_pushes(s: Seq<GpuCommand>, a: GpuCommand, b: GpuCommand)
    ensures
        s.push(a).push(b).take(s.len() as int) == s,
{
    assert(s.push(a).push(b).take(s.len() as int) =~= s);
}

/// Whether a batch draws flat shapes or textured quads.
#[derive(PartialEq, Eq, Structural, Clone, Copy, Debug)]
pub enum BatchModes {
    Shape,
    Texture,
}

/// A contiguous group of vertices sharing one draw-state key, drawn with a
/// single GPU call.
#[derive(PartialEq, Eq, Clone, Copy, Debug)]
pub struct Batch {
    pub mode: BatchModes,
    pub texture: Option<u32>,
    pub indices_count: u32,
    pub indices_start: u32,
    pub elements: u32,
}

/// Whether the batch's draw-state key equals `(mode, texture)`.
pub open spec fn batch_key_eq(b: Batch, mode: BatchModes, texture: Option<u32>) -> bool {
    b.mode == mode && b.texture == texture
}

/// The single merging decision: appending a primitive of `elements`
/// triangles (`indices` vertices) with the given key to a batch list, when
/// the vertex store already holds `vlen` vertices.  A new range opens only
/// when no range is open or the last range's key differs; otherwise the
/// last range grows.
#[verifier::opaque]
pub open spec fn batch_push(
    bs: Seq<Batch>,
    vlen: nat,
    mode: BatchModes,
    texture: Option<u32>,
    elements: u32,
    indices: u32,
) -> Seq<Batch> {
    if bs.len() == 0 || !batch_key_eq(bs.last(), mode, texture) {
        bs.push(
            Batch {
                mode,
                texture,
                elements,
                indices_count: indices,
                indices_start: vlen as u32,
            },
        )
    } else {
        bs.update(
            bs.len() - 1,
            Batch {
                mode,
                texture,
                elements: (bs.last().elements + elements) as u32,
                indices_count: (bs.last().indices_count + indices) as u32,
                indices_start: bs.last().indices_start,
            },
        )
    }
}

/// Well-formedness of a batch list over a vertex store of length `vlen`:
/// the ranges tile `[0, vlen)` in order, each holds at least one element
/// with three vertices per element, and adjacent ranges carry different
/// keys (the run-length property).
#[verifier::opaque]
pub open spec fn batches_wf(bs: Seq<Batch>, vlen: nat) -> bool {
    &&& (bs.len() == 0 ==> vlen == 0)
    &&& (bs.len() > 0 ==> bs[0].indices_start == 0)
    &&& (bs.len() > 0 ==> bs.last().indices_start + bs.last().indices_count == vlen)
    &&& (forall|i: int|
        0 <= i < bs.len() ==> (#[trigger] bs[i]).indices_count == 3 * bs[i].elements)
    &&& (forall|i: int| 0 <= i < bs.len() ==> (#[trigger] bs[i]).elements >= 1)
    &&& (forall|i: int|
        0 < i < bs.len() ==> (#[trigger] bs[i]).indices_start == bs[i - 1].indices_start + bs[i
            - 1].indices_count)
    &&& (forall|i: int|
        0 < i < bs.len() ==> !batch_key_eq(#[trigger] bs[i], bs[i - 1].mode, bs[i - 1].texture))
}

/// `batch_push` preserves well-formedness when the appended primitive is
/// non-empty and the grown vertex store still fits the index type.
#[verifier::rlimit(100)]
pub proof fn lemma_batch_push_wf(
    bs: Seq<Batch>,
    vlen: nat,
    mode: BatchModes,
    texture: Option<u32>,
    elements: u32,
    indices: u32,
)
    requires
        batches_wf(bs, vlen),
        vlen + indices <= u32::MAX,
        indices == 3 * elements,
        1 <= elements,
    ensures
        batches_wf(batch_push(bs, vlen, mode, texture, elements, indices), (vlen + indices) as nat),
{
    reveal(batch_push);
    reveal(batches_wf);
    let r = batch_push(bs, vlen, mode, texture, elements, indices);
    if bs.len() == 0 || !batch_key_eq(bs.last(), mode, texture) {
        assert(forall|i: int| 0 <= i < bs.len() ==> r[i] == bs[i]);
    } else {
        assert(forall|i: int| 0 <= i < bs.len() - 1 ==> r[i] == bs[i]);
    }
}

/// Merging two consecutive primitives with one key equals appending them
/// as one primitive: the second never opens a new range.
#[verifier::rlimit(100)]
#[verifier::spinoff_prover]
pub proof fn lemma_batch_push_merge(
    bs: Seq<Batch>,
    vlen: nat,
    vlen2: nat,
    mode: BatchModes,
    texture: Option<u32>,
    elements1: u32,
    indices1: u32,
    elements2: u32,
    indices2: u32,
)
    requires
        batches_wf(bs, vlen),
        vlen + indices1 + indices2 <= u32::MAX,
        indices1 == 3 * elements1,
        indices2 == 3 * elements2,
        1 <= elements1,
        1 <= elements2,
    ensures
        batch_push(
            batch_push(bs, vlen, mode, texture, elements1, indices1),
            vlen2,
            mode,
            texture,
            elements2,
            indices2,
        ) == batch_push(
            bs,
            vlen,
            mode,
            texture,
            (elements1 + elements2) as u32,
            (indices1 + indices2) as u32,
        ),
{
    reveal(batch_push);
    reveal(batches_wf);
    let mid = batch_push(bs, vlen, mode, texture, elements1, indices1);
    let lhs = batch_push(mid, vlen2, mode, texture, elements2, indices2);
    let rhs = batch_push(bs, vlen, mode, texture, (elements1 + elements2) as u32, (indices1
        + indices2) as u32);
    assert(batch_key_eq(mid.last(), mode, texture));
    if bs.len() == 0 || !batch_key_eq(bs.last(), mode, texture) {
        assert(mid == bs.push(mid.last()));
        assert(lhs == mid.update(bs.len() as int, lhs.last()));
        assert(lhs =~= rhs);
    } else {
        let last = bs.last();
        assert(last.indices_count == 3 * last.elements);
        assert(last.indices_start + last.indices_count <= vlen);
        assert(3 * (last.elements + elements1 + elements2) <= vlen + indices1 + indices2);
        assert(last.elements + elements1 + elements2 <= u32::MAX);
        assert(lhs =~= rhs);
    }
}

/// The six vertices that drawing a filled rectangle at `(x, y)` of size
/// `(width, height)` with fill color `color` appends: the two triangles of
/// the quad with corners `(x, y)`, `(x + width, y)`, `(x, y + height)`,
/// `(x + width, y + height)`.
pub open spec fn rectangle_vertices(
    x: u32,
    y: u32,
    width: u32,
    height: u32,
    color: (u32, u32, u32, u32),
) -> Seq<Vertex> {
    let x1 = fadd(x, width);
    let y1 = fadd(y, height);
    seq![
        shape_vertex((x, y), color),
        shape_vertex((x1, y), color),
        shape_vertex((x1, y1), color),
        shape_vertex((x, y), color),
        shape_vertex((x, y1), color),
        shape_vertex((x1, y1), color),
    ]
}

/// Unit-circle directions for the 20-segment disc fan: entry `k` holds
/// the bit patterns of the nearest single-precision values of the cosine
/// and sine of `k` twentieths of a full turn.
pub open spec fn rim_directions() -> Seq<(u32, u32)> {
    seq![
        (0x3F800000u32, 0x00000000u32),
        (0x3F737871u32, 0x3E9E377Au32),
        (0x3F4F1BBDu32, 0x3F167918u32),
        (0x3F167918u32, 0x3F4F1BBDu32),
        (0x3E9E377Au32, 0x3F737871u32),
        (0x00000000u32, 0x3F800000u32),
        (0xBE9E377Au32, 0x3F737871u32),
        (0xBF167918u32, 0x3F4F1BBDu32),
        (0xBF4F1BBDu32, 0x3F167918u32),
        (0xBF737871u32, 0x3E9E377Au32),
        (0xBF800000u32, 0x00000000u32),
        (0xBF737871u32, 0xBE9E377Au32),
        (0xBF4F1BBDu32, 0xBF167918u32),
        (0xBF167918u32, 0xBF4F1BBDu32),
        (0xBE9E377Au32, 0xBF737871u32),
        (0x00000000u32, 0xBF800000u32),
        (0x3E9E377Au32, 0xBF737871u32),
        (0x3F167918u32, 0xBF4F1BBDu32),
        (0x3F4F1BBDu32, 0xBF167918u32),
        (0x3F737871u32, 0xBE9E377Au32),
        (0x3F800000u32, 0x00000000u32),
    ]
}

/// Corner `k` of the disc fan around `(x, y)`: the rim direction scaled by
/// the radius and translated to the center.
pub open spec fn rim_point(x: u32, y: u32, radius: u32, k: int) -> (u32, u32) {
    let d = rim_directions()[k];
    (fadd(x, fmul(d.0, radius)), fadd(y, fmul(d.1, radius)))
}

/// The `3 * n` vertices that the first `n` triangles of the disc fan
/// append: triangle `k` runs from rim point `k` to rim point `k + 1` and
/// closes at the center.
pub open spec fn fan_vertices(
    x: u32,
    y: u32,
    radius: u32,
    color: (u32, u32, u32, u32),
    n: int,
) -> Seq<Vertex>
    decreases n,
{
    if n <= 0 {
        Seq::empty()
    } else {
        fan_vertices(x, y, radius, color, n - 1) + seq![
            shape_vertex(rim_point(x, y, radius, n - 1), color),
            shape_vertex(rim_point(x, y, radius, n), color),
            shape_vertex((x, y), color),
        ]
    }
}

/// Looks the rim direction table up.
fn rim_direction(k: usize) -> (r: (u32, u32))
    requires
        k < 21,
    ensures
        r == rim_directions()[k as int],
{
    match k {
        0 => (0x3F800000, 0x00000000),
        1 => (0x3F737871, 0x3E9E377A),
        2 => (0x3F4F1BBD, 0x3F167918),
        3 => (0x3F167918, 0x3F4F1BBD),
        4 => (0x3E9E377A, 0x3F737871),
        5 => (0x00000000, 0x3F800000),
        6 => (0xBE9E377A, 0x3F737871),
        7 => (0xBF167918, 0x3F4F1BBD),
        8 => (0xBF4F1BBD, 0x3F167918),
        9 => (0xBF737871, 0x3E9E377A),
        10 => (0xBF800000, 0x00000000),
        11 => (0xBF737871, 0xBE9E377A),
        12 => (0xBF4F1BBD, 0xBF167918),
        13 => (0xBF167918, 0xBF4F1BBD),
        14 => (0xBE9E377A, 0xBF737871),
        15 => (0x00000000, 0xBF800000),
        16 => (0x3E9E377A, 0xBF737871),
        17 => (0x3F167918, 0xBF4F1BBD),
        18 => (0x3F4F1BBD, 0xBF167918),
        19 => (0x3F737871, 0xBE9E377A),
        _ => (0x3F800000, 0x00000000),
    }
}

/// A rotation to bake into a textured quad: the angle's bit pattern
/// together with its precomputed cosine and sine.  The host computes the
/// trigonometry; a zero angle applies no rotation at all.
#[derive(PartialEq, Eq, Structural, Clone, Copy, Debug)]
pub struct Rotation {
    pub angle: u32,
    pub cos: u32,
    pub sin: u32,
}

/// Whether a rotation argument actually rotates: present with an angle
/// that is not a zero.
pub open spec fn rotation_is_effective(rotation: Option<Rotation>) -> bool {
    match rotation {
        Option::Some(r) => !f32_is_zero(r.angle),
        Option::None => false,
    }
}

/// The transform pipeline applied to one corner offset, in the fixed
/// order: subtract the pivot, scale, rotate, translate to `(x, y)`.
pub open spec fn corner_transformed(
    p: (u32, u32),
    origin: Option<(u32, u32)>,
    scale: Option<(u32, u32)>,
    rotation: Option<Rotation>,
    x: u32,
    y: u32,
) -> (u32, u32) {
    let p1 = match origin {
        Option::Some(o) => (fsub(p.0, o.0), fsub(p.1, o.1)),
        Option::None => p,
    };
    let p2 = match scale {
        Option::Some(s) => (fmul(p1.0, s.0), fmul(p1.1, s.1)),
        Option::None => p1,
    };
    let p3 = match rotation {
        Option::Some(r) => if f32_is_zero(r.angle) {
            p2
        } else {
            (
                fsub(fmul(p2.0, r.cos), fmul(p2.1, r.sin)),
                fadd(fmul(p2.0, r.sin), fmul(p2.1, r.cos)),
            )
        },
        Option::None => p2,
    };
    (fadd(p3.0, x), fadd(p3.1, y))
}

/// The quad size a texture draw uses: the region's size if one is given,
/// else the texture's own dimensions converted to single precision.
pub open spec fn texture_size(tex_width: u32, tex_height: u32, quad: Option<Quad>) -> (u32, u32) {
    match quad {
        Option::Some(q) => (q.width, q.height),
        Option::None => (f32_of_u32(tex_width), f32_of_u32(tex_height)),
    }
}

/// The four texture coordinates a texture draw uses: the region's if one
/// is given, else the corners of the unit square.
pub open spec fn texture_uvs(quad: Option<Quad>) -> Seq<(u32, u32)> {
    match quad {
        Option::Some(q) => q.vertex_texcoords@,
        Option::None => seq![
            (0u32, 0u32),
            (ONE_BITS, 0u32),
            (0u32, ONE_BITS),
            (ONE_BITS, ONE_BITS),
        ],
    }
}

/// The six vertices a texture draw appends: the transformed corners of
/// the quad, paired with its texture coordinates, in the two-triangle
/// order of `push_quad`.
pub open spec fn texture_vertices(
    tex_width: u32,
    tex_height: u32,
    quad: Option<Quad>,
    rotation: Option<Rotation>,
    scale: Option<(u32, u32)>,
    origin: Option<(u32, u32)>,
    x: u32,
    y: u32,
    color: (u32, u32, u32, u32),
) -> Seq<Vertex> {
    let size = texture_size(tex_width, tex_height, quad);
    let uv = texture_uvs(quad);
    let c0 = corner_transformed((0, 0), origin, scale, rotation, x, y);
    let c1 = corner_transformed((size.0, 0), origin, scale, rotation, x, y);
    let c2 = corner_transformed((0, size.1), origin, scale, rotation, x, y);
    let c3 = corner_transformed((size.0, size.1), origin, scale, rotation, x, y);
    seq![
        texture_vertex(c0, uv[0], color),
        texture_vertex(c1, uv[1], color),
        texture_vertex(c3, uv[3], color),
        texture_vertex(c0, uv[0], color),
        texture_vertex(c2, uv[2], color),
        texture_vertex(c3, uv[3], color),
    ]
}

/// The six vertices of a full-texture draw with no transform at all: the
/// base corners `(0, 0)`, `(w, 0)`, `(0, h)`, `(w, h)` with the unit
/// square texture coordinates.
pub open spec fn untransformed_texture_vertices(
    w: u32,
    h: u32,
    color: (u32, u32, u32, u32),
) -> Seq<Vertex> {
    seq![
        texture_vertex((0u32, 0u32), (0u32, 0u32), color),
        texture_vertex((w, 0u32), (ONE_BITS, 0u32), color),
        texture_vertex((w, h), (ONE_BITS, ONE_BITS), color),
        texture_vertex((0u32, 0u32), (0u32, 0u32), color),
        texture_vertex((0u32, h), (0u32, ONE_BITS), color),
        texture_vertex((w, h), (ONE_BITS, ONE_BITS), color),
    ]
}

/// A 2D batcher used to draw shapes, images and textures.
///
/// `matrix` is the current projection (column-major single-precision bit
/// patterns) and `color` the current fill tint; both survive across frames
/// until changed.
pub struct Batcher {
    pub vertices: Vec<Vertex>,
    pub batches: Vec<Batch>,
    pub matrix: [u32; 16],
    pub color: (u32, u32, u32, u32),
}

impl Batcher {
    /// Frame-state invariant: the batch list tiles the vertex store and the
    /// store fits the 32-bit index range of a draw call.
    pub open spec fn wf(self) -> bool {
        &&& batches_wf(self.batches@, self.vertices@.len())
        &&& self.vertices@.len() <= u32::MAX
    }

    /// Returns, creating it first if needed, the batch that a primitive
    /// with the given key joins, as the last entry of the batch list.
    fn get_batch(&mut self, mode: BatchModes, texture: Option<u32>)
        ensures
            final(self).vertices == old(self).vertices,
            final(self).matrix == old(self).matrix,
            final(self).color == old(self).color,
            ({
                let bs = old(self).batches@;
                let vlen = old(self).vertices@.len();
                if bs.len() == 0 || !batch_key_eq(bs.last(), mode, texture) {
                    final(self).batches@ == bs.push(
                        (Batch {
                            mode,
                            texture,
                            elements: 0,
                            indices_count: 0,
                            indices_start: vlen as u32,
                        }),
                    )
                } else {
                    final(self).batches@ == bs
                }
            }),
    {
        let opens_new = if self.batches.len() == 0 {
            true
        } else {
            let last = &self.batches[self.batches.len() - 1];
            let mode_differs = match (last.mode, mode) {
                (BatchModes::Shape, BatchModes::Shape) => false,
                (BatchModes::Texture, BatchModes::Texture) => false,
                _ => true,
            };
            let texture_differs = match (last.texture, texture) {
                (Option::None, Option::None) => false,
                (Option::Some(a), Option::Some(b)) => a != b,
                _ => true,
            };
            mode_differs || texture_differs
        };
        if opens_new {
            let indices_start = if self.vertices.len() > 0 {
                self.vertices.len() as u32
            } else {
                0
            };
            self.batches.push(
                Batch { mode, texture, elements: 0, indices_count: 0, indices_start },
            );
        }
    }

    /// Pushes one triangle with the given key: the matching batch grows by
    /// three vertices and the three corners are appended in order.
    #[verifier::rlimit(100)]
    #[verifier::spinoff_prover]
    pub fn push_tri(
        &mut self,
        texture: Option<u32>,
        mode: BatchModes,
        v0: Vertex,
        v1: Vertex,
        v2: Vertex,
    )
        requires
            old(self).wf(),
            old(self).vertices@.len() + 3 <= u32::MAX,
        ensures
            final(self).wf(),
            final(self).vertices@ == old(self).vertices@ + seq![v0, v1, v2],
            final(self).batches@ == batch_push(
                old(self).batches@,
                old(self).vertices@.len(),
                mode,
                texture,
                1,
                3,
            ),
            final(self).matrix == old(self).matrix,
            final(self).color == old(self).color,
    {
        proof {
            reveal(batch_push);
            reveal(batches_wf);
        }
        self.get_batch(mode, texture);
        let mut batch = self.batches.pop().unwrap();
        batch.elements = batch.elements + 1;
        batch.indices_count = batch.indices_count + 3;
        self.batches.push(batch);

        self.vertices.push(v0);
        self.vertices.push(v1);
        self.vertices.push(v2);

        proof {
            let bs = old(self).batches@;
            let vlen = old(self).vertices@.len();
            assert(self.batches@ =~= batch_push(bs, vlen, mode, texture, 1, 3));
            assert(self.vertices@ =~= old(self).vertices@ + seq![v0, v1, v2]);
            lemma_batch_push_wf(bs, vlen, mode, texture, 1, 3);
        }
    }

    /// Pushes one quad with the given key: the matching batch grows by six
    /// vertices, appended as the two triangles `(v0, v1, v3)` and
    /// `(v0, v2, v3)` sharing the `v0`-`v3` diagonal, where `v0..v3` are
    /// the top-left, top-right, bottom-left and bottom-right corners.
    #[verifier::rlimit(100)]
    #[verifier::spinoff_prover]
    pub fn push_quad(
        &mut self,
        texture: Option<u32>,
        mode: BatchModes,
        v0: Vertex,
        v1: Vertex,
        v2: Vertex,
        v3: Vertex,
    )
        requires
            old(self).wf(),
            old(self).vertices@.len() + 6 <= u32::MAX,
        ensures
            final(self).wf(),
            final(self).vertices@ == old(self).vertices@ + seq![v0, v1, v3, v0, v2, v3],
            final(self).batches@ == batch_push(
                old(self).batches@,
                old(self).vertices@.len(),
                mode,
                texture,
                2,
                6,
            ),
            final(self).matrix == old(self).matrix,
            final(self).color == old(self).color,
    {
        proof {
            reveal(batch_push);
            reveal(batches_wf);
        }
        self.get_batch(mode, texture);
        let mut batch = self.batches.pop().unwrap();
        batch.elements = batch.elements + 2;
        batch.indices_count = batch.indices_count + 6;
        self.batches.push(batch);

        self.vertices.push(v0);
        self.vertices.push(v1);
        self.vertices.push(v3);
        self.vertices.push(v0);
        self.vertices.push(v2);
        self.vertices.push(v3);

        proof {
            let bs = old(self).batches@;
            let vlen = old(self).vertices@.len();
            assert(self.batches@ =~= batch_push(bs, vlen, mode, texture, 2, 6));
            assert(self.vertices@ =~= old(self).vertices@ + seq![v0, v1, v3, v0, v2, v3]);
            lemma_batch_push_wf(bs, vlen, mode, texture, 2, 6);
        }
    }

    /// Creates a new Batcher with empty frame state, the identity
    /// projection and an opaque white fill color.  Blend state, the shader
    /// program and the vertex buffers are set up by the platform layer.
    pub fn new() -> (r: Self)
        ensures
            r.wf(),
            r.vertices@.len() == 0,
            r.batches@.len() == 0,
            r.matrix@ == identity_matrix(),
            r.color == (ONE_BITS, ONE_BITS, ONE_BITS, ONE_BITS),
    {
        let r = Self {
            vertices: Vec::new(),
            batches: Vec::new(),
            matrix: identity_matrix_x(),
            color: (ONE_BITS, ONE_BITS, ONE_BITS, ONE_BITS),
        };
        proof {
            reveal(batches_wf);
        }
        r
    }

    /// Recreates the orthographic projection used for rendering, mapping
    /// `(0, 0)` top-left to `(width, height)` bottom-right, and asks for a
    /// matching viewport resize.  `width` and `height` are bit patterns.
    pub fn viewport(&mut self, width: u32, height: u32) -> (cmd: GpuCommand)
        ensures
            final(self).matrix@ == ortho_matrix(0, width, height, 0, 0, ONE_BITS),
            final(self).vertices == old(self).vertices,
            final(self).batches == old(self).batches,
            final(self).color == old(self).color,
            cmd == (GpuCommand::SetViewport { width, height }),
    {
        self.matrix = ortho_matrix_x(0, width, height, 0, 0, ONE_BITS);
        GpuCommand::SetViewport { width, height }
    }

    /// Multiplies a translation by `(x, y)` onto the current matrix.
    pub fn translate(&mut self, x: u32, y: u32)
        ensures
            final(self).matrix@ == mat_mul(old(self).matrix@, translation_matrix(x, y)),
            final(self).vertices == old(self).vertices,
            final(self).batches == old(self).batches,
            final(self).color == old(self).color,
    {
        let t = translation_matrix_x(x, y);
        self.matrix = mat_mul_x(&self.matrix, &t);
    }

    /// Multiplies a scale by `(x, y)` onto the current matrix.
    pub fn scale(&mut self, x: u32, y: u32)
        ensures
            final(self).matrix@ == mat_mul(old(self).matrix@, scale_matrix(x, y)),
            final(self).vertices == old(self).vertices,
            final(self).batches == old(self).batches,
            final(self).color == old(self).color,
    {
        let s = scale_matrix_x(x, y);
        self.matrix = mat_mul_x(&self.matrix, &s);
    }

    /// Sets the active draw color (bit patterns of the four channels).
    pub fn set_color(&mut self, red: u32, green: u32, blue: u32, alpha: u32)
        ensures
            final(self).color == (red, green, blue, alpha),
            final(self).vertices == old(self).vertices,
            final(self).batches == old(self).batches,
            final(self).matrix == old(self).matrix,
    {
        self.color = (red, green, blue, alpha);
    }

    /// Returns the active draw color.
    pub fn get_color(&self) -> (r: (u32, u32, u32, u32))
        ensures
            r == self.color,
    {
        self.color
    }

    /// Prepares the Batcher for a frame over a surface of the given pixel
    /// dimensions: the projection and viewport are rebuilt and the frame
    /// state is cleared.  Must be called once per frame before drawing.
    pub fn origin(&mut self, width: u32, height: u32) -> (cmd: GpuCommand)
        ensures
            final(self).wf(),
            final(self).vertices@.len() == 0,
            final(self).batches@.len() == 0,
            final(self).matrix@ == ortho_matrix(
                0,
                f32_of_u32(width),
                f32_of_u32(height),
                0,
                0,
                ONE_BITS,
            ),
            final(self).color == old(self).color,
            cmd == (GpuCommand::SetViewport {
                width: f32_of_u32(width),
                height: f32_of_u32(height),
            }),
    {
        let w = f32_of_u32_x(width);
        let h = f32_of_u32_x(height);
        let cmd = self.viewport(w, h);
        self.vertices.clear();
        self.batches.clear();
        proof {
            reveal(batches_wf);
        }
        cmd
    }

    /// Flushes the frame: returns the commands that draw everything
    /// accumulated since the last flush, and clears the frame state.  With
    /// no pending vertices no upload and no draw is issued at all.
    #[verifier::rlimit(100)]
    pub fn present(&mut self) -> (cmds: Vec<GpuCommand>)
        requires
            old(self).wf(),
        ensures
            final(self).wf(),
            is_flush_of(cmds@, old(self).vertices@, old(self).batches@, old(self).matrix@),
            cmds@.len() == flush_len(old(self).vertices@, old(self).batches@),
            old(self).vertices@.len() == 0 ==> cmds@.len() == 0,
            final(self).vertices@.len() == 0,
            final(self).batches@.len() == 0,
            final(self).matrix == old(self).matrix,
            final(self).color == old(self).color,
    {
        let mut cmds: Vec<GpuCommand> = Vec::new();
        if self.vertices.len() > 0 {
            let mut vs: Vec<Vertex> = Vec::new();
            core::mem::swap(&mut vs, &mut self.vertices);
            cmds.push(GpuCommand::UploadVertices { vertices: vs });
        }
        if self.batches.len() > 0 {
            cmds.push(GpuCommand::SetMatrixUniform { matrix: self.matrix });
            let ghost u: int = if old(self).vertices@.len() > 0 {
                1int
            } else {
                0int
            };
            let mut i: usize = 0;
            while i < self.batches.len()
                invariant
                    self.batches == old(self).batches,
                    i <= self.batches@.len(),
                    cmds@.len() == u + 1 + 2 * i,
                    u == if old(self).vertices@.len() > 0 {
                        1int
                    } else {
                        0int
                    },
                    old(self).vertices@.len() > 0 ==> (cmds@[0] matches GpuCommand::UploadVertices {
                        vertices,
                    } && vertices@ == old(self).vertices@),
                    cmds@[u] matches GpuCommand::SetMatrixUniform { matrix } && matrix@ == old(
                        self,
                    ).matrix@,
                    forall|j: int|
                        0 <= j < i ==> cmds@[u + 1 + 2 * j] == bind_command(
                            #[trigger] self.batches@[j],
                        ),
                    forall|j: int|
                        0 <= j < i ==> cmds@[u + 2 + 2 * j] == (GpuCommand::DrawTriangles {
                            start: (#[trigger] self.batches@[j]).indices_start,
                            count: self.batches@[j].indices_count,
                        }),
                decreases self.batches@.len() - i,
            {
                let batch = &self.batches[i];
                match batch.texture {
                    Option::Some(texture) => {
                        cmds.push(GpuCommand::BindTexture { texture });
                    },
                    Option::None => {
                        cmds.push(GpuCommand::UnbindTexture);
                    },
                }
                cmds.push(
                    GpuCommand::DrawTriangles {
                        start: batch.indices_start,
                        count: batch.indices_count,
                    },
                );
                i = i + 1;
            }
        }
        self.vertices.clear();
        self.batches.clear();
        proof {
            reveal(batches_wf);
            if old(self).vertices@.len() == 0 && old(self).batches@.len() > 0 {
                assert(old(self).batches@.last().elements >= 1);
                assert(false);
            }
            reveal(is_flush_of);
        }
        cmds
    }

    /// Redirects drawing to a Canvas: pending batches are flushed first,
    /// the viewport and projection switch to the canvas dimensions with
    /// the projection flipped vertically (off-screen sampling is Y-flipped
    /// relative to the visible surface), and the canvas framebuffer is
    /// bound.
    #[verifier::rlimit(100)]
    #[verifier::spinoff_prover]
    pub fn set_canvas(&mut self, canvas: &Canvas) -> (cmds: Vec<GpuCommand>)
        requires
            old(self).wf(),
        ensures
            final(self).wf(),
            ({
                let flen = flush_len(old(self).vertices@, old(self).batches@);
                let cw = f32_of_u32(canvas.texture.width);
                let ch = f32_of_u32(canvas.texture.height);
                &&& cmds@.len() == flen + 2
                &&& is_flush_of(
                    cmds@.take(flen),
                    old(self).vertices@,
                    old(self).batches@,
                    old(self).matrix@,
                )
                &&& cmds@[flen] == (GpuCommand::SetViewport { width: cw, height: ch })
                &&& cmds@[flen + 1] == (GpuCommand::BindFramebuffer { framebuffer: canvas.handle })
                &&& final(self).matrix@ == mat_mul(
                    mat_mul(
                        ortho_matrix(0, cw, ch, 0, 0, ONE_BITS),
                        scale_matrix(ONE_BITS, f32_neg(ONE_BITS)),
                    ),
                    translation_matrix(0, f32_neg(ch)),
                )
            }),
            final(self).vertices@.len() == 0,
            final(self).batches@.len() == 0,
            final(self).color == old(self).color,
    {
        let mut cmds = self.present();
        let ghost flush_view = cmds@;
        let cw = f32_of_u32_x(canvas.get_width());
        let ch = f32_of_u32_x(canvas.get_height());
        let viewport_cmd = self.viewport(cw, ch);
        cmds.push(viewport_cmd);

        // Flips the projection vertically.
        self.scale(ONE_BITS, f32_neg_x(ONE_BITS));
        self.translate(0, f32_neg_x(ch));

        cmds.push(GpuCommand::BindFramebuffer { framebuffer: canvas.handle });
        proof {
            lemma_take_of_two_pushes(
                flush_view,
                viewport_cmd,
                GpuCommand::BindFramebuffer { framebuffer: canvas.handle },
            );
        }
        cmds
    }

    /// Restores drawing to the visible surface of the given pixel
    /// dimensions: pending batches are flushed first, then the viewport
    /// and projection are rebuilt and the default framebuffer is bound.
    #[verifier::rlimit(100)]
    #[verifier::spinoff_prover]
    pub fn reset_canvas(&mut self, width: u32, height: u32) -> (cmds: Vec<GpuCommand>)
        requires
            old(self).wf(),
        ensures
            final(self).wf(),
            ({
                let flen = flush_len(old(self).vertices@, old(self).batches@);
                &&& cmds@.len() == flen + 2
                &&& is_flush_of(
                    cmds@.take(flen),
                    old(self).vertices@,
                    old(self).batches@,
                    old(self).matrix@,
                )
                &&& cmds@[flen] == (GpuCommand::SetViewport {
                    width: f32_of_u32(width),
                    height: f32_of_u32(height),
                })
                &&& cmds@[flen + 1] == GpuCommand::UnbindFramebuffer
            }),
            final(self).vertices@.len() == 0,
            final(self).batches@.len() == 0,
            final(self).color == old(self).color,
    {
        let mut cmds = self.present();
        let ghost flush_view = cmds@;
        let w = f32_of_u32_x(width);
        let h = f32_of_u32_x(height);
        let viewport_cmd = self.viewport(w, h);
        cmds.push(viewport_cmd);
        cmds.push(GpuCommand::UnbindFramebuffer);
        proof {
            lemma_take_of_two_pushes(flush_view, viewport_cmd, GpuCommand::UnbindFramebuffer);
        }
        cmds
    }

    /// Draws a triangle with the current fill color.
    #[verifier::rlimit(100)]
    #[verifier::spinoff_prover]
    pub fn triangle(&mut self, pos0: (u32, u32), pos1: (u32, u32), pos2: (u32, u32))
        requires
            old(self).wf(),
            old(self).vertices@.len() + 3 <= u32::MAX,
        ensures
            final(self).wf(),
            final(self).vertices@ == old(self).vertices@ + seq![
                shape_vertex(pos0, old(self).color),
                shape_vertex(pos1, old(self).color),
                shape_vertex(pos2, old(self).color),
            ],
            final(self).batches@ == batch_push(
                old(self).batches@,
                old(self).vertices@.len(),
                BatchModes::Shape,
                Option::None,
                1,
                3,
            ),
            final(self).matrix == old(self).matrix,
            final(self).color == old(self).color,
    {
        let color = self.color;
        self.push_tri(
            Option::None,
            BatchModes::Shape,
            Vertex::as_shape(pos0, color),
            Vertex::as_shape(pos1, color),
            Vertex::as_shape(pos2, color),
        );
        proof {
            assert(self.vertices@ =~= old(self).vertices@ + seq![
                shape_vertex(pos0, old(self).color),
                shape_vertex(pos1, old(self).color),
                shape_vertex(pos2, old(self).color),
            ]);
        }
    }

    /// Draws a filled rectangle with the current fill color.
    #[verifier::rlimit(100)]
    #[verifier::spinoff_prover]
    pub fn rectangle(&mut self, x: u32, y: u32, width: u32, height: u32)
        requires
            old(self).wf(),
            old(self).vertices@.len() + 6 <= u32::MAX,
        ensures
            final(self).wf(),
            final(self).vertices@ == old(self).vertices@ + rectangle_vertices(
                x,
                y,
                width,
                height,
                old(self).color,
            ),
            final(self).batches@ == batch_push(
                old(self).batches@,
                old(self).vertices@.len(),
                BatchModes::Shape,
                Option::None,
                2,
                6,
            ),
            final(self).matrix == old(self).matrix,
            final(self).color == old(self).color,
    {
        let color = self.color;
        let x1 = fadd_x(x, width);
        let y1 = fadd_x(y, height);
        self.push_quad(
            Option::None,
            BatchModes::Shape,
            Vertex::as_shape((x, y), color),
            Vertex::as_shape((x1, y), color),
            Vertex::as_shape((x, y1), color),
            Vertex::as_shape((x1, y1), color),
        );
        proof {
            assert(self.vertices@ =~= old(self).vertices@ + rectangle_vertices(
                x,
                y,
                width,
                height,
                old(self).color,
            ));
        }
    }

    /// Draws a hollow rectangle as up to four filled bands (top, bottom,
    /// left, right).  The thickness is clamped to half the width and half
    /// the height so the bands cannot overlap or invert; a thickness that
    /// is not greater than zero draws nothing.
    #[verifier::rlimit(100)]
    #[verifier::spinoff_prover]
    pub fn hollow_rectangle(&mut self, x: u32, y: u32, width: u32, height: u32, thickness: u32)
        requires
            old(self).wf(),
            old(self).vertices@.len() + 24 <= u32::MAX,
        ensures
            final(self).wf(),
            !f32_gt_zero(thickness) ==> *final(self) == *old(self),
            f32_gt_zero(thickness) ==> ({
                let c = old(self).color;
                let tx = f32_min_spec(thickness, fdiv(width, TWO_BITS));
                let ty = f32_min_spec(thickness, fdiv(height, TWO_BITS));
                let inner_h = fsub(height, fmul(ty, TWO_BITS));
                &&& final(self).vertices@ == old(self).vertices@ + rectangle_vertices(
                    x,
                    y,
                    width,
                    ty,
                    c,
                ) + rectangle_vertices(x, fsub(fadd(y, height), ty), width, ty, c)
                    + rectangle_vertices(x, fadd(y, ty), tx, inner_h, c) + rectangle_vertices(
                    fsub(fadd(x, width), tx),
                    fadd(y, ty),
                    tx,
                    inner_h,
                    c,
                )
                &&& final(self).batches@ == batch_push(
                    old(self).batches@,
                    old(self).vertices@.len(),
                    BatchModes::Shape,
                    Option::None,
                    8,
                    24,
                )
            }),
            final(self).matrix == old(self).matrix,
            final(self).color == old(self).color,
    {
        if f32_gt_zero_x(thickness) {
            let thick_x = f32_min_x(thickness, fdiv_x(width, TWO_BITS));
            let thick_y = f32_min_x(thickness, fdiv_x(height, TWO_BITS));
            let inner_h = fsub_x(height, fmul_x(thick_y, TWO_BITS));

            let ghost bs = old(self).batches@;
            let ghost vlen = old(self).vertices@.len();

            self.rectangle(x, y, width, thick_y);
            proof {
                lemma_batch_push_merge(bs, vlen, (vlen + 6) as nat, BatchModes::Shape,
                    Option::None, 2, 6, 2, 6);
            }
            self.rectangle(x, fsub_x(fadd_x(y, height), thick_y), width, thick_y);
            proof {
                lemma_batch_push_merge(bs, vlen, (vlen + 12) as nat, BatchModes::Shape,
                    Option::None, 4, 12, 2, 6);
            }
            self.rectangle(x, fadd_x(y, thick_y), thick_x, inner_h);
            proof {
                lemma_batch_push_merge(bs, vlen, (vlen + 18) as nat, BatchModes::Shape,
                    Option::None, 6, 18, 2, 6);
            }
            self.rectangle(fsub_x(fadd_x(x, width), thick_x), fadd_x(y, thick_y), thick_x, inner_h);
            proof {
                let c = old(self).color;
                let tx = f32_min_spec(thickness, fdiv(width, TWO_BITS));
                let ty = f32_min_spec(thickness, fdiv(height, TWO_BITS));
                let ih = fsub(height, fmul(ty, TWO_BITS));
                assert(self.vertices@ =~= old(self).vertices@ + rectangle_vertices(
                    x,
                    y,
                    width,
                    ty,
                    c,
                ) + rectangle_vertices(x, fsub(fadd(y, height), ty), width, ty, c)
                    + rectangle_vertices(x, fadd(y, ty), tx, ih, c) + rectangle_vertices(
                    fsub(fadd(x, width), tx),
                    fadd(y, ty),
                    tx,
                    ih,
                    c,
                ));
            }
        }
    }

    /// Draws a disc with the current fill color, approximated as a fan of
    /// twenty triangles anchored at the center `(x, y)`; the segment count
    /// is fixed regardless of the radius.
    #[verifier::rlimit(100)]
    #[verifier::spinoff_prover]
    pub fn circle(&mut self, x: u32, y: u32, radius: u32)
        requires
            old(self).wf(),
            old(self).vertices@.len() + 60 <= u32::MAX,
        ensures
            final(self).wf(),
            final(self).vertices@ == old(self).vertices@ + fan_vertices(
                x,
                y,
                radius,
                old(self).color,
                20,
            ),
            final(self).batches@ == batch_push(
                old(self).batches@,
                old(self).vertices@.len(),
                BatchModes::Shape,
                Option::None,
                20,
                60,
            ),
            final(self).matrix == old(self).matrix,
            final(self).color == old(self).color,
    {
        let color = self.color;
        let d0 = rim_direction(0);
        let mut last: (u32, u32) = (fmul_x(d0.0, radius), fmul_x(d0.1, radius));
        let mut k: usize = 1;
        while k <= 20
            invariant
                1 <= k <= 21,
                self.wf(),
                self.vertices@.len() == old(self).vertices@.len() + 3 * (k - 1),
                old(self).vertices@.len() + 60 <= u32::MAX,
                self.vertices@ == old(self).vertices@ + fan_vertices(x, y, radius, color, k - 1),
                k == 1 ==> self.batches@ == old(self).batches@,
                k > 1 ==> self.batches@ == batch_push(
                    old(self).batches@,
                    old(self).vertices@.len(),
                    BatchModes::Shape,
                    Option::None,
                    (k - 1) as u32,
                    (3 * (k - 1)) as u32,
                ),
                last.0 == fmul(rim_directions()[k - 1].0, radius),
                last.1 == fmul(rim_directions()[k - 1].1, radius),
                self.matrix == old(self).matrix,
                self.color == old(self).color,
                color == old(self).color,
                batches_wf(old(self).batches@, old(self).vertices@.len()),
            decreases 21 - k,
        {
            let ghost pre = *self;
            let d = rim_direction(k);
            let next = (fmul_x(d.0, radius), fmul_x(d.1, radius));
            self.push_tri(
                Option::None,
                BatchModes::Shape,
                Vertex::as_shape((fadd_x(x, last.0), fadd_x(y, last.1)), color),
                Vertex::as_shape((fadd_x(x, next.0), fadd_x(y, next.1)), color),
                Vertex::as_shape((x, y), color),
            );
            proof {
                if k > 1 {
                    lemma_batch_push_merge(
                        old(self).batches@,
                        old(self).vertices@.len(),
                        pre.vertices@.len(),
                        BatchModes::Shape,
                        Option::None,
                        (k - 1) as u32,
                        (3 * (k - 1)) as u32,
                        1,
                        3,
                    );
                }
                assert(self.vertices@ =~= old(self).vertices@ + fan_vertices(
                    x,
                    y,
                    radius,
                    color,
                    k as int,
                ));
            }
            last = next;
            k = k + 1;
        }
    }

    /// Draws a texture (or a region of it) at `(x, y)`, baking the pivot
    /// offset, scale and rotation into the corner positions in that fixed
    /// order.  A draw with no region, no effective rotation, no scale, no
    /// pivot and a zero position appends exactly the untransformed base
    /// corners.
    #[verifier::rlimit(100)]
    #[verifier::spinoff_prover]
    pub fn texture(
        &mut self,
        texture: &Texture,
        x: u32,
        y: u32,
        quad: Option<Quad>,
        angle: Option<Rotation>,
        scale: Option<(u32, u32)>,
        origin: Option<(u32, u32)>,
    )
        requires
            old(self).wf(),
            old(self).vertices@.len() + 6 <= u32::MAX,
        ensures
            final(self).wf(),
            final(self).vertices@ == old(self).vertices@ + texture_vertices(
                texture.width,
                texture.height,
                quad,
                angle,
                scale,
                origin,
                x,
                y,
                old(self).color,
            ),
            final(self).batches@ == batch_push(
                old(self).batches@,
                old(self).vertices@.len(),
                BatchModes::Texture,
                Option::Some(texture.handle),
                2,
                6,
            ),
            final(self).matrix == old(self).matrix,
            final(self).color == old(self).color,
            (quad is None && !rotation_is_effective(angle) && scale is None && origin is None && x
                == 0 && y == 0) ==> final(self).vertices@ == old(self).vertices@
                + untransformed_texture_vertices(
                f32_of_u32(texture.width),
                f32_of_u32(texture.height),
                old(self).color,
            ),
    {
        let color = self.color;
        let mut width: u32 = 0;
        let mut height: u32 = 0;
        let mut uv0: (u32, u32) = (0, 0);
        let mut uv1: (u32, u32) = (ONE_BITS, 0);
        let mut uv2: (u32, u32) = (0, ONE_BITS);
        let mut uv3: (u32, u32) = (ONE_BITS, ONE_BITS);
        match &quad {
            Option::Some(q) => {
                width = q.width;
                height = q.height;
                let uvs = q.get_vertex_texcoords();
                uv0 = uvs[0];
                uv1 = uvs[1];
                uv2 = uvs[2];
                uv3 = uvs[3];
            },
            Option::None => {
                width = f32_of_u32_x(texture.get_width());
                height = f32_of_u32_x(texture.get_height());
            },
        }

        let mut pos0: (u32, u32) = (0, 0);
        let mut pos1: (u32, u32) = (width, 0);
        let mut pos2: (u32, u32) = (0, height);
        let mut pos3: (u32, u32) = (width, height);

        // Origin offset.
        match &origin {
            Option::Some(o) => {
                pos0 = (fsub_x(pos0.0, o.0), fsub_x(pos0.1, o.1));
                pos1 = (fsub_x(pos1.0, o.0), fsub_x(pos1.1, o.1));
                pos2 = (fsub_x(pos2.0, o.0), fsub_x(pos2.1, o.1));
                pos3 = (fsub_x(pos3.0, o.0), fsub_x(pos3.1, o.1));
            },
            Option::None => {},
        }

        // Scale.
        match &scale {
            Option::Some(s) => {
                pos0 = (fmul_x(pos0.0, s.0), fmul_x(pos0.1, s.1));
                pos1 = (fmul_x(pos1.0, s.0), fmul_x(pos1.1, s.1));
                pos2 = (fmul_x(pos2.0, s.0), fmul_x(pos2.1, s.1));
                pos3 = (fmul_x(pos3.0, s.0), fmul_x(pos3.1, s.1));
            },
            Option::None => {},
        }

        // Rotation.
        match &angle {
            Option::Some(r) => {
                if !f32_is_zero_x(r.angle) {
                    pos0 = Self::rotate_corner(pos0, r);
                    pos1 = Self::rotate_corner(pos1, r);
                    pos2 = Self::rotate_corner(pos2, r);
                    pos3 = Self::rotate_corner(pos3, r);
                }
            },
            Option::None => {},
        }

        // Translates to the position.
        pos0 = (fadd_x(pos0.0, x), fadd_x(pos0.1, y));
        pos1 = (fadd_x(pos1.0, x), fadd_x(pos1.1, y));
        pos2 = (fadd_x(pos2.0, x), fadd_x(pos2.1, y));
        pos3 = (fadd_x(pos3.0, x), fadd_x(pos3.1, y));

        self.push_quad(
            Option::Some(texture.handle),
            BatchModes::Texture,
            Vertex::as_texture(pos0, uv0, color),
            Vertex::as_texture(pos1, uv1, color),
            Vertex::as_texture(pos2, uv2, color),
            Vertex::as_texture(pos3, uv3, color),
        );
        proof {
            assert(self.vertices@ =~= old(self).vertices@ + texture_vertices(
                texture.width,
                texture.height,
                quad,
                angle,
                scale,
                origin,
                x,
                y,
                old(self).color,
            ));
            if quad is None && !rotation_is_effective(angle) && scale is None && origin is None && x
                == 0 && y == 0 {
                assert(self.vertices@ =~= old(self).vertices@ + untransformed_texture_vertices(
                    f32_of_u32(texture.width),
                    f32_of_u32(texture.height),
                    old(self).color,
                ));
            }
        }
    }

    /// Rotates one corner offset by the precomputed cosine and sine.
    fn rotate_corner(p: (u32, u32), r: &Rotation) -> (q: (u32, u32))
        ensures
            q.0 == fsub(fmul(p.0, r.cos), fmul(p.1, r.sin)),
            q.1 == fadd(fmul(p.0, r.sin), fmul(p.1, r.cos)),
    {
        (
            fsub_x(fmul_x(p.0, r.cos), fmul_x(p.1, r.sin)),
            fadd_x(fmul_x(p.0, r.sin), fmul_x(p.1, r.cos)),
        )
    }

    /// Draws a Canvas as an image: its owned texture drawn through the
    /// same transform pipeline.
    pub fn canvas(
        &mut self,
        canvas: &Canvas,
        x: u32,
        y: u32,
        quad: Option<Quad>,
        angle: Option<Rotation>,
        scale: Option<(u32, u32)>,
        origin: Option<(u32, u32)>,
    )
        requires
            old(self).wf(),
            old(self).vertices@.len() + 6 <= u32::MAX,
        ensures
            final(self).wf(),
            final(self).vertices@ == old(self).vertices@ + texture_vertices(
                canvas.texture.width,
                canvas.texture.height,
                quad,
                angle,
                scale,
                origin,
                x,
                y,
                old(self).color,
            ),
            final(self).batches@ == batch_push(
                old(self).batches@,
                old(self).vertices@.len(),
                BatchModes::Texture,
                Option::Some(canvas.texture.handle),
                2,
                6,
            ),
            final(self).matrix == old(self).matrix,
            final(self).color == old(self).color,
    {
        self.texture(&canvas.texture, x, y, quad, angle, scale, origin)
    }
}

} // verus!
