//! A region descriptor: a sub-rectangle of a texture atlas with
//! precomputed corner offsets and normalized texture coordinates.
//!
//! All scalars are single-precision bit patterns; the normalization
//! divisions are IEEE 754 operations named in [`crate::fbits`].

use vstd::prelude::*;

use crate::fbits::fadd;
use crate::fbits::fadd_x;
use crate::fbits::fdiv;
use crate::fbits::fdiv_x;
use crate::fbits::f32_of_u32;
use crate::fbits::f32_of_u32_x;
use crate::texture::Texture;

verus! {

/// The four corner offsets of a region of the given size, in the order
/// top-left, top-right, bottom-left, bottom-right.
pub open spec fn region_corners(width: u32, height: u32) -> Seq<(u32, u32)> {
    seq![(0u32, 0u32), (width, 0u32), (0u32, height), (width, height)]
}

/// The four normalized texture coordinates of the sub-rectangle at
/// `(x, y)` of size `(width, height)` within a source of size
/// `(source_w, source_h)`, in the same corner order.
pub open spec fn region_texcoords(
    x: u32,
    y: u32,
    width: u32,
    height: u32,
    source_w: u32,
    source_h: u32,
) -> Seq<(u32, u32)> {
    let u0 = fdiv(x, source_w);
    let v0 = fdiv(y, source_h);
    let u1 = fdiv(fadd(x, width), source_w);
    let v1 = fdiv(fadd(y, height), source_h);
    seq![(u0, v0), (u1, v0), (u0, v1), (u1, v1)]
}

/// Selects a part of a texture to draw; useful for sprite atlases.
pub struct Quad {
    pub x: u32,
    pub y: u32,
    pub width: u32,
    pub height: u32,
    pub vertex_positions: [(u32, u32); 4],
    pub vertex_texcoords: [(u32, u32); 4],
}

impl Quad {
    /// Creates a new Quad for the sub-rectangle at `position` of size
    /// `size` within a source image of size `source`.
    pub fn new(position: (u32, u32), size: (u32, u32), source: (u32, u32)) -> (r: Self)
        ensures
            r.x == position.0,
            r.y == position.1,
            r.width == size.0,
            r.height == size.1,
            r.vertex_positions@ == region_corners(size.0, size.1),
            r.vertex_texcoords@ == region_texcoords(
                position.0,
                position.1,
                size.0,
                size.1,
                source.0,
                source.1,
            ),
    {
        let u0 = fdiv_x(position.0, source.0);
        let v0 = fdiv_x(position.1, source.1);
        let u1 = fdiv_x(fadd_x(position.0, size.0), source.0);
        let v1 = fdiv_x(fadd_x(position.1, size.1), source.1);
        let r = Self {
            x: position.0,
            y: position.1,
            width: size.0,
            height: size.1,
            vertex_positions: [(0u32, 0u32), (size.0, 0u32), (0u32, size.1), (size.0, size.1)],
            vertex_texcoords: [(u0, v0), (u1, v0), (u0, v1), (u1, v1)],
        };
        proof {
            assert(r.vertex_positions@ =~= region_corners(size.0, size.1));
            assert(r.vertex_texcoords@ =~= region_texcoords(
                position.0,
                position.1,
                size.0,
                size.1,
                source.0,
                source.1,
            ));
        }
        r
    }

    /// Creates a new Quad whose source size is taken from a Texture.
    pub fn from_texture(position: (u32, u32), size: (u32, u32), texture: &Texture) -> (r: Self)
        ensures
            r.x == position.0,
            r.y == position.1,
            r.width == size.0,
            r.height == size.1,
            r.vertex_positions@ == region_corners(size.0, size.1),
            r.vertex_texcoords@ == region_texcoords(
                position.0,
                position.1,
                size.0,
                size.1,
                f32_of_u32(texture.width),
                f32_of_u32(texture.height),
            ),
    {
        let sw = f32_of_u32_x(texture.get_width());
        let sh = f32_of_u32_x(texture.get_height());
        Self::new(position, size, (sw, sh))
    }

    /// Returns the Quad vertex positions.
    pub fn get_vertex_positions(&self) -> (r: [(u32, u32); 4])
        ensures
            r@ == self.vertex_positions@,
    {
        self.vertex_positions
    }

    /// Returns the Quad vertex texcoords.
    pub fn get_vertex_texcoords(&self) -> (r: [(u32, u32); 4])
        ensures
            r@ == self.vertex_texcoords@,
    {
        self.vertex_texcoords
    }
}

} // verus!
