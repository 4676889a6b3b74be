//! Laws of the batching engine, stated over the specification model and
//! proved once and for all: how the run-length merging behaves over whole
//! sequences of draw calls, what the disc fan is made of, why a rotation
//! by a zero angle changes nothing, and why a render-target switch keeps
//! draw order in the command stream.

use vstd::prelude::*;

use crate::batcher::Batch;
use crate::batcher::BatchModes;
use crate::batcher::GpuCommand;
use crate::batcher::Rotation;
use crate::batcher::batch_key_eq;
use crate::batcher::batch_push;
use crate::batcher::bind_command;
use crate::batcher::corner_transformed;
use crate::batcher::fan_vertices;
use crate::batcher::flush_len;
use crate::batcher::is_flush_of;
use crate::batcher::rim_point;
use crate::batcher::texture_vertices;
use crate::quad::Quad;
use crate::vertex::Vertex;
use crate::vertex::shape_vertex;

verus! {

/// One primitive handed to the batcher: its draw-state key and its size
/// in elements (a triangle is one element of three vertices, a quad two
/// elements of six vertices).
#[derive(PartialEq, Eq, Clone, Copy, Debug)]
pub struct DrawCall {
    pub mode: BatchModes,
    pub texture: Option<u32>,
    pub elements: u32,
}

/// Whether two draw calls share their draw-state key.
pub open spec fn same_key(a: DrawCall, b: DrawCall) -> bool {
    a.mode == b.mode && a.texture == b.texture
}

/// The batch list after handing a whole sequence of draw calls to the
/// merging decision, starting from the batch list `bs` over `vlen`
/// pending vertices.  This is exactly how `push_tri` and `push_quad`
/// grow the state, one call at a time.
pub open spec fn batch_fold(bs: Seq<Batch>, vlen: nat, calls: Seq<DrawCall>) -> Seq<Batch>
    decreases calls.len(),
{
    if calls.len() == 0 {
        bs
    } else {
        let c = calls[0];
        batch_fold(
            batch_push(bs, vlen, c.mode, c.texture, c.elements, (3 * c.elements) as u32),
            (vlen + 3 * c.elements) as nat,
            calls.drop_first(),
        )
    }
}

/// The total element count of a sequence of draw calls.
pub open spec fn total_elements(calls: Seq<DrawCall>) -> int
    decreases calls.len(),
{
    if calls.len() == 0 {
        0int
    } else {
        calls[0].elements + total_elements(calls.drop_first())
    }
}

/// The number of key transitions within a sequence of draw calls.
pub open spec fn transitions(calls: Seq<DrawCall>) -> int
    decreases calls.len(),
{
    if calls.len() <= 1 {
        0int
    } else {
        (if same_key(calls[0], calls[1]) {
            0int
        } else {
            1int
        }) + transitions(calls.drop_first())
    }
}

/// Helper for the run-length law: how many new ranges a sequence of draw
/// calls opens when the last open range carries the key of `last`.
pub open spec fn ranges_opened(last: Option<DrawCall>, calls: Seq<DrawCall>) -> int
    decreases calls.len(),
{
    if calls.len() == 0 {
        0int
    } else {
        (match last {
            Option::Some(l) => if same_key(l, calls[0]) {
                0int
            } else {
                1int
            },
            Option::None => 1int,
        }) + ranges_opened(Option::Some(calls[0]), calls.drop_first())
    }
}

/// The key of the last open range, as a draw call with no size.
pub open spec fn last_key(bs: Seq<Batch>) -> Option<DrawCall> {
    if bs.len() == 0 {
        Option::None
    } else {
        Option::Some(
            DrawCall { mode: bs.last().mode, texture: bs.last().texture, elements: 0 },
        )
    }
}

/// The merging decision opens a new range exactly when the key changes:
/// folding a call sequence grows the batch list by the number of ranges
/// the sequence opens against the last open key, and never otherwise.
pub proof fn lemma_fold_range_count(bs: Seq<Batch>, vlen: nat, calls: Seq<DrawCall>)
    ensures
        batch_fold(bs, vlen, calls).len() == bs.len() + ranges_opened(last_key(bs), calls),
    decreases calls.len(),
{
    reveal(batch_push);
    if calls.len() == 0 {
    } else {
        let c = calls[0];
        let bs2 = batch_push(bs, vlen, c.mode, c.texture, c.elements, (3 * c.elements) as u32);
        assert(last_key(bs2) == Option::Some(
            DrawCall { mode: c.mode, texture: c.texture, elements: 0 },
        ));
        if bs.len() == 0 || !batch_key_eq(bs.last(), c.mode, c.texture) {
            assert(bs2.len() == bs.len() + 1);
        } else {
            assert(bs2.len() == bs.len());
        }
        lemma_fold_range_count(bs2, (vlen + 3 * c.elements) as nat, calls.drop_first());
        assert(ranges_opened(last_key(bs2), calls.drop_first()) == ranges_opened(
            Option::Some(c),
            calls.drop_first(),
        )) by {
            lemma_ranges_opened_key_only(
                Option::Some(DrawCall { mode: c.mode, texture: c.texture, elements: 0 }),
                Option::Some(c),
                calls.drop_first(),
            );
        }
    }
}

/// `ranges_opened` depends on the last key only, not on its size.
proof fn lemma_ranges_opened_key_only(a: Option<DrawCall>, b: Option<DrawCall>, calls: Seq<
    DrawCall,
>)
    requires
        match (a, b) {
            (Option::Some(x), Option::Some(y)) => x.mode == y.mode && x.texture == y.texture,
            (Option::None, Option::None) => true,
            _ => false,
        },
    ensures
        ranges_opened(a, calls) == ranges_opened(b, calls),
    decreases calls.len(),
{
    if calls.len() == 0 {
    } else {
        lemma_ranges_opened_key_only(
            Option::Some(calls[0]),
            Option::Some(calls[0]),
            calls.drop_first(),
        );
    }
}

/// Opening counts against no open range: one range for the first call,
/// plus one per key transition inside the sequence.
proof fn lemma_ranges_opened_transitions(calls: Seq<DrawCall>)
    requires
        calls.len() > 0,
    ensures
        ranges_opened(Option::None, calls) == 1 + transitions(calls),
    decreases calls.len(),
{
    lemma_ranges_opened_from(calls[0], calls.drop_first());
}

/// Opening counts against an open range with the key of `last`: one for
/// the step from `last` to the first call if their keys differ, plus one
/// per key transition inside the sequence.
proof fn lemma_ranges_opened_from(last: DrawCall, calls: Seq<DrawCall>)
    ensures
        ranges_opened(Option::Some(last), calls) == (if calls.len() == 0 {
            0int
        } else {
            (if same_key(last, calls[0]) {
                0int
            } else {
                1int
            }) + transitions(calls)
        }),
    decreases calls.len(),
{
    if calls.len() == 0 {
    } else {
        lemma_ranges_opened_from(calls[0], calls.drop_first());
        if calls.len() > 1 {
            assert(calls.drop_first()[0] == calls[1]);
        }
    }
}

/// Run-length law: starting from an empty frame, the number of batches
/// after any sequence of draw calls is one more than the number of key
/// transitions in the sequence.  In particular a sequence alternating
/// between two distinct keys yields one batch per call, and merging never
/// reaches back past the immediately preceding range.
pub proof fn lemma_batch_count_is_run_length(calls: Seq<DrawCall>)
    requires
        calls.len() > 0,
    ensures
        batch_fold(Seq::empty(), 0, calls).len() == 1 + transitions(calls),
{
    lemma_fold_range_count(Seq::empty(), 0, calls);
    lemma_ranges_opened_transitions(calls);
}

/// Folding same-key calls onto a single open range of that key keeps one
/// range and adds three indices per element.
proof fn lemma_same_key_fold(b: Batch, vlen: nat, calls: Seq<DrawCall>)
    requires
        forall|i: int|
            0 <= i < calls.len() ==> (#[trigger] calls[i]).mode == b.mode && calls[i].texture
                == b.texture,
        forall|i: int| 0 <= i < calls.len() ==> (#[trigger] calls[i]).elements >= 1,
        b.indices_count + 3 * total_elements(calls) <= u32::MAX,
        b.elements + total_elements(calls) <= u32::MAX,
    ensures
        batch_fold(seq![b], vlen, calls).len() == 1,
        batch_fold(seq![b], vlen, calls)[0].indices_count == b.indices_count + 3 * total_elements(
            calls,
        ),
        batch_fold(seq![b], vlen, calls)[0].indices_start == b.indices_start,
        batch_fold(seq![b], vlen, calls)[0].mode == b.mode,
        batch_fold(seq![b], vlen, calls)[0].texture == b.texture,
    decreases calls.len(),
{
    reveal(batch_push);
    if calls.len() == 0 {
    } else {
        let c = calls[0];
        let b2 = Batch {
            mode: b.mode,
            texture: b.texture,
            elements: (b.elements + c.elements) as u32,
            indices_count: (b.indices_count + 3 * c.elements) as u32,
            indices_start: b.indices_start,
        };
        assert(total_elements(calls) == c.elements + total_elements(calls.drop_first()));
        assert(total_elements(calls.drop_first()) >= 0) by {
            lemma_total_elements_nonneg(calls.drop_first());
        }
        assert(batch_push(seq![b], vlen, c.mode, c.texture, c.elements, (3 * c.elements) as u32)
            =~= seq![b2]);
        lemma_same_key_fold(b2, (vlen + 3 * c.elements) as nat, calls.drop_first());
    }
}

/// The total element count is never negative.
proof fn lemma_total_elements_nonneg(calls: Seq<DrawCall>)
    ensures
        total_elements(calls) >= 0,
    decreases calls.len(),
{
    if calls.len() > 0 {
        lemma_total_elements_nonneg(calls.drop_first());
    }
}

/// Single-batch law: starting from an empty frame, a sequence of draw
/// calls that all share one key yields exactly one batch, whose index
/// count is three per triangle and six per quad - three times the total
/// element count.
pub proof fn lemma_same_key_single_batch(
    calls: Seq<DrawCall>,
    mode: BatchModes,
    texture: Option<u32>,
)
    requires
        calls.len() > 0,
        forall|i: int|
            0 <= i < calls.len() ==> (#[trigger] calls[i]).mode == mode && calls[i].texture
                == texture,
        forall|i: int| 0 <= i < calls.len() ==> (#[trigger] calls[i]).elements >= 1,
        3 * total_elements(calls) <= u32::MAX,
    ensures
        batch_fold(Seq::empty(), 0, calls).len() == 1,
        batch_fold(Seq::empty(), 0, calls)[0].indices_count == 3 * total_elements(calls),
        batch_fold(Seq::empty(), 0, calls)[0].indices_start == 0,
{
    reveal(batch_push);
    let c = calls[0];
    let b = Batch {
        mode,
        texture,
        elements: c.elements,
        indices_count: (3 * c.elements) as u32,
        indices_start: 0,
    };
    assert(total_elements(calls) == c.elements + total_elements(calls.drop_first()));
    lemma_total_elements_nonneg(calls.drop_first());
    assert(batch_push(Seq::empty(), 0, c.mode, c.texture, c.elements, (3 * c.elements) as u32)
        =~= seq![b]);
    lemma_same_key_fold(b, (3 * c.elements) as nat, calls.drop_first());
}

/// Zero-rotation law: a rotation argument whose angle is a zero applies
/// no rotation at all - the corners a texture draw appends are exactly
/// those of the same draw with no rotation argument.
pub proof fn lemma_zero_rotation_is_identity(
    tex_width: u32,
    tex_height: u32,
    quad: Option<Quad>,
    rotation: Rotation,
    scale: Option<(u32, u32)>,
    origin: Option<(u32, u32)>,
    x: u32,
    y: u32,
    color: (u32, u32, u32, u32),
)
    requires
        crate::fbits::f32_is_zero(rotation.angle),
    ensures
        texture_vertices(
            tex_width,
            tex_height,
            quad,
            Option::Some(rotation),
            scale,
            origin,
            x,
            y,
            color,
        ) == texture_vertices(
            tex_width,
            tex_height,
            quad,
            Option::None,
            scale,
            origin,
            x,
            y,
            color,
        ),
{
    assert forall|p: (u32, u32)|
        corner_transformed(p, origin, scale, Option::Some(rotation), x, y) == corner_transformed(
            p,
            origin,
            scale,
            Option::None,
            x,
            y,
        ) by {
    }
}

/// The triangle at position `k` of a vertex stream laid out three
/// vertices per triangle.
pub open spec fn triangle_of(s: Seq<Vertex>, k: int) -> (Vertex, Vertex, Vertex) {
    (s[3 * k], s[3 * k + 1], s[3 * k + 2])
}

/// Disc-fan law: the fan of `n` segments is `3 * n` vertices long, and
/// every one of its triangles closes at the center vertex and runs along
/// the rim from point `k` to point `k + 1`, so consecutive triangles
/// share a rim corner.
pub proof fn lemma_fan_shares_center(
    x: u32,
    y: u32,
    radius: u32,
    color: (u32, u32, u32, u32),
    n: int,
)
    requires
        0 <= n,
    ensures
        fan_vertices(x, y, radius, color, n).len() == 3 * n,
        forall|k: int|
            0 <= k < n ==> (#[trigger] triangle_of(fan_vertices(x, y, radius, color, n), k)) == (
            shape_vertex(rim_point(x, y, radius, k), color),
            shape_vertex(rim_point(x, y, radius, k + 1), color),
            shape_vertex((x, y), color),
            ),
    decreases n,
{
    if n == 0 {
    } else {
        lemma_fan_shares_center(x, y, radius, color, n - 1);
        let prev = fan_vertices(x, y, radius, color, n - 1);
        let cur = fan_vertices(x, y, radius, color, n);
        assert forall|k: int| 0 <= k < n implies (#[trigger] triangle_of(cur, k)) == (
            shape_vertex(rim_point(x, y, radius, k), color),
            shape_vertex(rim_point(x, y, radius, k + 1), color),
            shape_vertex((x, y), color),
        ) by {
            if k < n - 1 {
                assert(triangle_of(cur, k) == triangle_of(prev, k));
            }
        }
    }
}

/// Target-switch law: a render-target switch flushes the pending frame,
/// so in the combined command stream every draw call of a batch submitted
/// before the switch stands strictly earlier than every draw call of a
/// batch submitted after it.
pub proof fn lemma_target_switch_preserves_order(
    switch_cmds: Seq<GpuCommand>,
    later_cmds: Seq<GpuCommand>,
    vs1: Seq<Vertex>,
    bs1: Seq<Batch>,
    m1: Seq<u32>,
    vs2: Seq<Vertex>,
    bs2: Seq<Batch>,
    m2: Seq<u32>,
    i: int,
    j: int,
)
    requires
        is_flush_of(switch_cmds.take(flush_len(vs1, bs1)), vs1, bs1, m1),
        switch_cmds.len() >= flush_len(vs1, bs1),
        is_flush_of(later_cmds, vs2, bs2, m2),
        0 <= i < bs1.len(),
        0 <= j < bs2.len(),
    ensures
        ({
            let stream = switch_cmds + later_cmds;
            let u1: int = if vs1.len() > 0 {
                1int
            } else {
                0int
            };
            let u2: int = if vs2.len() > 0 {
                1int
            } else {
                0int
            };
            let before: int = u1 + 2 + 2 * i;
            let after: int = switch_cmds.len() + u2 + 2 + 2 * j;
            &&& before < after
            &&& stream[before] == (GpuCommand::DrawTriangles {
                start: bs1[i].indices_start,
                count: bs1[i].indices_count,
            })
            &&& stream[after] == (GpuCommand::DrawTriangles {
                start: bs2[j].indices_start,
                count: bs2[j].indices_count,
            })
        }),
{
    reveal(is_flush_of);
    let stream = switch_cmds + later_cmds;
    let flen1 = flush_len(vs1, bs1);
    let u1: int = if vs1.len() > 0 {
        1int
    } else {
        0int
    };
    let before: int = u1 + 2 + 2 * i;
    assert(switch_cmds.take(flen1)[before] == (GpuCommand::DrawTriangles {
        start: bs1[i].indices_start,
        count: bs1[i].indices_count,
    }));
    assert(stream[before] == switch_cmds[before]);
    let u2: int = if vs2.len() > 0 {
        1int
    } else {
        0int
    };
    let after: int = switch_cmds.len() + u2 + 2 + 2 * j;
    assert(stream[after] == later_cmds[u2 + 2 + 2 * j]);
}

} // verus!
