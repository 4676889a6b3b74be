//! Shape emitters: rectangles, hollow rectangles, discs.

use battery::Batcher;
use battery::Vertex;

fn pos(v: &Vertex) -> (f32, f32) {
    (f32::from_bits(v.position.0), f32::from_bits(v.position.1))
}

fn rect_corners(vertices: &[Vertex]) -> [(f32, f32); 4] {
    // a quad is emitted as v0, v1, v3, v0, v2, v3
    [pos(&vertices[0]), pos(&vertices[1]), pos(&vertices[4]), pos(&vertices[2])]
}

#[test]
fn rectangle_corners_are_position_plus_size() {
    let mut b = Batcher::new();
    b.rectangle(
        1.5f32.to_bits(),
        2.5f32.to_bits(),
        3.25f32.to_bits(),
        4.5f32.to_bits(),
    );
    assert_eq!(b.vertices.len(), 6);
    let c = rect_corners(&b.vertices);
    assert_eq!(c[0], (1.5, 2.5));
    assert_eq!(c[1], (1.5 + 3.25, 2.5));
    assert_eq!(c[2], (1.5, 2.5 + 4.5));
    assert_eq!(c[3], (1.5 + 3.25, 2.5 + 4.5));
}

#[test]
fn triangle_uses_given_corners_and_shape_mode() {
    let mut b = Batcher::new();
    b.triangle(
        (0.0f32.to_bits(), 0.0f32.to_bits()),
        (8.0f32.to_bits(), 0.0f32.to_bits()),
        (0.0f32.to_bits(), 8.0f32.to_bits()),
    );
    assert_eq!(b.vertices.len(), 3);
    assert_eq!(pos(&b.vertices[1]), (8.0, 0.0));
    // the mode tag selects the flat-color lane
    assert_eq!(b.vertices[0].mode, (0, 0, 1.0f32.to_bits()));
    assert_eq!(b.batches.len(), 1);
    assert_eq!(b.batches[0].texture, None);
}

#[test]
fn hollow_rectangle_emits_four_border_bands() {
    let mut b = Batcher::new();
    b.hollow_rectangle(
        0.0f32.to_bits(),
        0.0f32.to_bits(),
        16.0f32.to_bits(),
        16.0f32.to_bits(),
        2.0f32.to_bits(),
    );
    // four filled rectangles in one batch
    assert_eq!(b.vertices.len(), 24);
    assert_eq!(b.batches.len(), 1);
    assert_eq!(b.batches[0].indices_count, 24);

    let bands: Vec<[(f32, f32); 4]> = (0..4)
        .map(|i| rect_corners(&b.vertices[6 * i..6 * i + 6]))
        .collect();
    // top, bottom, left, right
    assert_eq!(bands[0], [(0.0, 0.0), (16.0, 0.0), (0.0, 2.0), (16.0, 2.0)]);
    assert_eq!(bands[1], [(0.0, 14.0), (16.0, 14.0), (0.0, 16.0), (16.0, 16.0)]);
    assert_eq!(bands[2], [(0.0, 2.0), (2.0, 2.0), (0.0, 14.0), (2.0, 14.0)]);
    assert_eq!(bands[3], [(14.0, 2.0), (16.0, 2.0), (14.0, 14.0), (16.0, 14.0)]);

    // the union covers the border band, the interior stays uncovered
    let covered = |x: f32, y: f32| {
        bands.iter().any(|c| x >= c[0].0 && x <= c[3].0 && y >= c[0].1 && y <= c[3].1)
    };
    assert!(covered(0.5, 0.5));
    assert!(covered(15.5, 8.0));
    assert!(covered(8.0, 1.0));
    assert!(covered(8.0, 15.0));
    assert!(!covered(2.5, 2.5));
    assert!(!covered(8.0, 8.0));
    assert!(!covered(13.5, 13.5));
}

#[test]
fn hollow_rectangle_clamps_thickness_to_half_extent() {
    let mut b = Batcher::new();
    b.hollow_rectangle(
        0.0f32.to_bits(),
        0.0f32.to_bits(),
        4.0f32.to_bits(),
        10.0f32.to_bits(),
        50.0f32.to_bits(),
    );
    let bands: Vec<[(f32, f32); 4]> = (0..4)
        .map(|i| rect_corners(&b.vertices[6 * i..6 * i + 6]))
        .collect();
    // horizontal thickness clamps to 2, vertical to 5
    assert_eq!(bands[0], [(0.0, 0.0), (4.0, 0.0), (0.0, 5.0), (4.0, 5.0)]);
    assert_eq!(bands[1], [(0.0, 5.0), (4.0, 5.0), (0.0, 10.0), (4.0, 10.0)]);
    assert_eq!(bands[2], [(0.0, 5.0), (2.0, 5.0), (0.0, 5.0), (2.0, 5.0)]);
}

#[test]
fn hollow_rectangle_with_zero_thickness_draws_nothing() {
    let mut b = Batcher::new();
    b.hollow_rectangle(
        0.0f32.to_bits(),
        0.0f32.to_bits(),
        16.0f32.to_bits(),
        16.0f32.to_bits(),
        0.0f32.to_bits(),
    );
    assert_eq!(b.vertices.len(), 0);
    assert_eq!(b.batches.len(), 0);
}

#[test]
fn circle_emits_twenty_triangles_sharing_the_center() {
    let mut b = Batcher::new();
    b.circle(0.0f32.to_bits(), 0.0f32.to_bits(), 10.0f32.to_bits());
    assert_eq!(b.vertices.len(), 60);
    assert_eq!(b.batches.len(), 1);
    assert_eq!(b.batches[0].indices_count, 60);
    assert_eq!(b.batches[0].elements, 20);
    for k in 0..20 {
        // every third vertex is exactly the center
        assert_eq!(pos(&b.vertices[3 * k + 2]), (0.0, 0.0));
        // each rim corner lies on the circle
        let (x, y) = pos(&b.vertices[3 * k]);
        let r = (x * x + y * y).sqrt();
        assert!((r - 10.0).abs() < 1e-3);
    }
    // consecutive triangles share a rim corner
    for k in 0..19 {
        assert_eq!(b.vertices[3 * k + 1], b.vertices[3 * (k + 1)]);
    }
    // the fan starts at angle zero
    assert_eq!(pos(&b.vertices[0]), (10.0, 0.0));
}
