//! The texture transform pipeline: pivot, scale, rotation, translation.

use battery::Batcher;
use battery::Quad;
use battery::Texture;
use battery::Vertex;
use battery::batcher::Rotation;

fn pos(v: &Vertex) -> (f32, f32) {
    (f32::from_bits(v.position.0), f32::from_bits(v.position.1))
}

fn uv(v: &Vertex) -> (f32, f32) {
    (f32::from_bits(v.texcoord.0), f32::from_bits(v.texcoord.1))
}

fn corners(vertices: &[Vertex]) -> [(f32, f32); 4] {
    [pos(&vertices[0]), pos(&vertices[1]), pos(&vertices[4]), pos(&vertices[2])]
}

fn rotation(angle: f32) -> Rotation {
    Rotation { angle: angle.to_bits(), cos: angle.cos().to_bits(), sin: angle.sin().to_bits() }
}

#[test]
fn untransformed_texture_draw_keeps_base_corners() {
    let mut b = Batcher::new();
    let tex = Texture::new(9).with_size(32, 16);
    b.texture(&tex, 0.0f32.to_bits(), 0.0f32.to_bits(), None, None, None, None);
    assert_eq!(b.vertices.len(), 6);
    let c = corners(&b.vertices);
    assert_eq!(c, [(0.0, 0.0), (32.0, 0.0), (0.0, 16.0), (32.0, 16.0)]);
    // unit-square texture coordinates
    assert_eq!(uv(&b.vertices[0]), (0.0, 0.0));
    assert_eq!(uv(&b.vertices[1]), (1.0, 0.0));
    assert_eq!(uv(&b.vertices[4]), (0.0, 1.0));
    assert_eq!(uv(&b.vertices[2]), (1.0, 1.0));
    // textured mode tag, and the batch is keyed on the texture handle
    assert_eq!(b.vertices[0].mode, (1.0f32.to_bits(), 0, 0));
    assert_eq!(b.batches[0].texture, Some(9));
}

#[test]
fn texture_draw_translates_by_position() {
    let mut b = Batcher::new();
    let tex = Texture::new(1).with_size(8, 8);
    b.texture(&tex, 100.5f32.to_bits(), 20.25f32.to_bits(), None, None, None, None);
    let c = corners(&b.vertices);
    assert_eq!(c[0], (100.5, 20.25));
    assert_eq!(c[3], (100.5 + 8.0, 20.25 + 8.0));
}

#[test]
fn rotation_by_zero_angle_changes_nothing() {
    let mut plain = Batcher::new();
    let mut rotated = Batcher::new();
    let tex = Texture::new(1).with_size(32, 16);
    plain.texture(&tex, 5.0f32.to_bits(), 6.0f32.to_bits(), None, None, None, None);
    rotated.texture(
        &tex,
        5.0f32.to_bits(),
        6.0f32.to_bits(),
        None,
        Some(rotation(0.0)),
        None,
        None,
    );
    assert_eq!(plain.vertices, rotated.vertices);
}

#[test]
fn rotation_by_full_turn_returns_corners_within_tolerance() {
    let mut plain = Batcher::new();
    let mut rotated = Batcher::new();
    let tex = Texture::new(1).with_size(32, 16);
    let tau = std::f32::consts::TAU;
    plain.texture(&tex, 5.0f32.to_bits(), 6.0f32.to_bits(), None, None, None, None);
    rotated.texture(
        &tex,
        5.0f32.to_bits(),
        6.0f32.to_bits(),
        None,
        Some(rotation(tau)),
        None,
        None,
    );
    for (a, b) in plain.vertices.iter().zip(rotated.vertices.iter()) {
        let (ax, ay) = pos(a);
        let (bx, by) = pos(b);
        assert!((ax - bx).abs() < 1e-4, "x: {ax} vs {bx}");
        assert!((ay - by).abs() < 1e-4, "y: {ay} vs {by}");
    }
}

#[test]
fn quarter_turn_rotates_corners() {
    let mut b = Batcher::new();
    let tex = Texture::new(1).with_size(10, 10);
    let half_pi = std::f32::consts::FRAC_PI_2;
    b.texture(
        &tex,
        0.0f32.to_bits(),
        0.0f32.to_bits(),
        None,
        Some(rotation(half_pi)),
        None,
        None,
    );
    // (10, 0) rotates to roughly (0, 10)
    let c = corners(&b.vertices);
    assert!((c[1].0 - 0.0).abs() < 1e-4);
    assert!((c[1].1 - 10.0).abs() < 1e-4);
}

#[test]
fn pivot_then_scale_then_translate_in_fixed_order() {
    let mut b = Batcher::new();
    let tex = Texture::new(1).with_size(4, 4);
    b.texture(
        &tex,
        10.0f32.to_bits(),
        20.0f32.to_bits(),
        None,
        None,
        Some((2.0f32.to_bits(), 3.0f32.to_bits())),
        Some((1.0f32.to_bits(), 1.0f32.to_bits())),
    );
    let c = corners(&b.vertices);
    // corner (0,0): pivot to (-1,-1), scale to (-2,-3), translate
    assert_eq!(c[0], (10.0 - 2.0, 20.0 - 3.0));
    // corner (4,4): pivot to (3,3), scale to (6,9), translate
    assert_eq!(c[3], (10.0 + 6.0, 20.0 + 9.0));
}

#[test]
fn quad_region_selects_size_and_texcoords() {
    let mut b = Batcher::new();
    let tex = Texture::new(1).with_size(64, 32);
    let quad = Quad::from_texture(
        (16.0f32.to_bits(), 8.0f32.to_bits()),
        (32.0f32.to_bits(), 8.0f32.to_bits()),
        &tex,
    );
    assert_eq!(f32::from_bits(quad.width), 32.0);
    b.texture(&tex, 0.0f32.to_bits(), 0.0f32.to_bits(), Some(quad), None, None, None);
    let c = corners(&b.vertices);
    assert_eq!(c[3], (32.0, 8.0));
    // texcoords normalized against the texture size
    assert_eq!(uv(&b.vertices[0]), (16.0 / 64.0, 8.0 / 32.0));
    assert_eq!(uv(&b.vertices[2]), ((16.0 + 32.0) / 64.0, (8.0 + 8.0) / 32.0));
}

#[test]
fn quad_new_normalizes_against_given_source() {
    let quad = Quad::new(
        (3.0f32.to_bits(), 5.0f32.to_bits()),
        (7.0f32.to_bits(), 11.0f32.to_bits()),
        (70.0f32.to_bits(), 110.0f32.to_bits()),
    );
    let uvs = quad.get_vertex_texcoords();
    assert_eq!(f32::from_bits(uvs[0].0), 3.0 / 70.0);
    assert_eq!(f32::from_bits(uvs[0].1), 5.0 / 110.0);
    assert_eq!(f32::from_bits(uvs[3].0), (3.0 + 7.0) / 70.0);
    assert_eq!(f32::from_bits(uvs[3].1), (5.0 + 11.0) / 110.0);
    let positions = quad.get_vertex_positions();
    assert_eq!(f32::from_bits(positions[3].0), 7.0);
    assert_eq!(f32::from_bits(positions[3].1), 11.0);
}

#[test]
fn texture_dimensions_round_trip() {
    let tex = Texture::empty();
    assert_eq!(tex.get_width(), 0);
    assert_eq!(tex.get_height(), 0);
    assert_eq!(tex.handle, 0);
    let tex = Texture::new(42).with_size(640, 480);
    assert_eq!(tex.handle, 42);
    assert_eq!(tex.get_width(), 640);
    assert_eq!(tex.get_height(), 480);
}
