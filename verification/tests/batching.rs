//! Batch-range merging behavior observed through the public API.

use battery::Batcher;
use battery::Vertex;
use battery::batcher::BatchModes;

fn white() -> (u32, u32, u32, u32) {
    let one = 1.0f32.to_bits();
    (one, one, one, one)
}

fn shape(x: f32, y: f32) -> Vertex {
    Vertex::as_shape((x.to_bits(), y.to_bits()), white())
}

#[test]
fn same_key_draws_merge_into_one_batch() {
    let mut b = Batcher::new();
    let v = shape(0.0, 0.0);
    b.push_tri(None, BatchModes::Shape, v, v, v);
    b.push_quad(None, BatchModes::Shape, v, v, v, v);
    b.push_tri(None, BatchModes::Shape, v, v, v);
    assert_eq!(b.batches.len(), 1);
    assert_eq!(b.batches[0].indices_start, 0);
    assert_eq!(b.batches[0].indices_count, 3 + 6 + 3);
    assert_eq!(b.batches[0].elements, 4);
    assert_eq!(b.vertices.len(), 12);
}

#[test]
fn alternating_keys_open_one_batch_per_transition() {
    let mut b = Batcher::new();
    let v = shape(0.0, 0.0);
    for _ in 0..3 {
        b.push_tri(None, BatchModes::Shape, v, v, v);
        b.push_tri(Some(5), BatchModes::Texture, v, v, v);
    }
    // six calls, five transitions: six batches
    assert_eq!(b.batches.len(), 6);
    for (i, batch) in b.batches.iter().enumerate() {
        assert_eq!(batch.indices_count, 3);
        assert_eq!(batch.indices_start, 3 * i as u32);
    }
}

#[test]
fn different_textures_do_not_merge() {
    let mut b = Batcher::new();
    let v = shape(0.0, 0.0);
    b.push_tri(Some(1), BatchModes::Texture, v, v, v);
    b.push_tri(Some(2), BatchModes::Texture, v, v, v);
    b.push_tri(Some(2), BatchModes::Texture, v, v, v);
    assert_eq!(b.batches.len(), 2);
    assert_eq!(b.batches[0].texture, Some(1));
    assert_eq!(b.batches[1].texture, Some(2));
    assert_eq!(b.batches[1].indices_count, 6);
}

#[test]
fn merging_never_looks_back_past_the_last_range() {
    let mut b = Batcher::new();
    let v = shape(0.0, 0.0);
    b.push_tri(Some(1), BatchModes::Texture, v, v, v);
    b.push_tri(None, BatchModes::Shape, v, v, v);
    b.push_tri(Some(1), BatchModes::Texture, v, v, v);
    // the third call shares a key with the first range but not with the
    // last, so a fresh range opens
    assert_eq!(b.batches.len(), 3);
}

#[test]
fn push_quad_emits_the_two_triangles_in_order() {
    let mut b = Batcher::new();
    let v0 = shape(0.0, 0.0);
    let v1 = shape(1.0, 0.0);
    let v2 = shape(0.0, 1.0);
    let v3 = shape(1.0, 1.0);
    b.push_quad(None, BatchModes::Shape, v0, v1, v2, v3);
    assert_eq!(b.vertices.len(), 6);
    // the emitted stream reconstructs (v0, v1, v3) and (v0, v2, v3)
    assert_eq!(b.vertices[0], v0);
    assert_eq!(b.vertices[1], v1);
    assert_eq!(b.vertices[2], v3);
    assert_eq!(b.vertices[3], v0);
    assert_eq!(b.vertices[4], v2);
    assert_eq!(b.vertices[5], v3);
}

#[test]
fn origin_clears_frame_state() {
    let mut b = Batcher::new();
    let v = shape(2.0, 3.0);
    b.push_tri(None, BatchModes::Shape, v, v, v);
    b.push_quad(Some(4), BatchModes::Texture, v, v, v, v);
    assert!(b.vertices.len() > 0 && b.batches.len() > 0);
    b.origin(320, 240);
    assert_eq!(b.vertices.len(), 0);
    assert_eq!(b.batches.len(), 0);
}

#[test]
fn new_batcher_starts_with_identity_matrix_and_white_color() {
    let b = Batcher::new();
    assert_eq!(b.vertices.len(), 0);
    assert_eq!(b.batches.len(), 0);
    assert_eq!(b.get_color(), white());
    let one = 1.0f32.to_bits();
    let expected: [u32; 16] = [
        one, 0, 0, 0, 0, one, 0, 0, 0, 0, one, 0, 0, 0, 0, one,
    ];
    assert_eq!(b.matrix, expected);
}

#[test]
fn set_color_tints_later_vertices() {
    let mut b = Batcher::new();
    let red = (1.0f32.to_bits(), 0.0f32.to_bits(), 0.0f32.to_bits(), 1.0f32.to_bits());
    b.set_color(red.0, red.1, red.2, red.3);
    assert_eq!(b.get_color(), red);
    b.triangle(
        (0.0f32.to_bits(), 0.0f32.to_bits()),
        (1.0f32.to_bits(), 0.0f32.to_bits()),
        (0.0f32.to_bits(), 1.0f32.to_bits()),
    );
    assert_eq!(b.vertices[0].color, red);
    assert_eq!(b.vertices[2].color, red);
}
