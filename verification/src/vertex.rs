//! The per-corner record sent to the rasterizer.
//!
//! Every scalar is the bit pattern of a single-precision value (see
//! [`crate::fbits`]).  The `mode` triple is a one-hot tag that the fragment
//! stage reads to choose between sampling the bound texture and using the
//! vertex color alone.

use vstd::prelude::*;

use crate::fbits::ONE_BITS;

verus! {

/// A vertex: position, texture coordinate, color and mode tag, each scalar
/// a single-precision bit pattern.
#[derive(PartialEq, Eq, Clone, Copy, Debug)]
pub struct Vertex {
    pub position: (u32, u32, u32),
    pub texcoord: (u32, u32, u32),
    pub color: (u32, u32, u32, u32),
    pub mode: (u32, u32, u32),
}

/// The vertex that `Vertex::as_shape` builds: color shading only, the mode
/// tag selecting the "ignore texture" lane.
pub open spec fn shape_vertex(position: (u32, u32), color: (u32, u32, u32, u32)) -> Vertex {
    Vertex {
        position: (position.0, position.1, 0),
        texcoord: (0, 0, 0),
        color: color,
        mode: (0, 0, ONE_BITS),
    }
}

/// The vertex that `Vertex::as_texture` builds: textured shading, the mode
/// tag selecting the "multiply by sampled color" lane.
pub open spec fn texture_vertex(
    position: (u32, u32),
    texcoord: (u32, u32),
    color: (u32, u32, u32, u32),
) -> Vertex {
    Vertex {
        position: (position.0, position.1, 0),
        texcoord: (texcoord.0, texcoord.1, 0),
        color: color,
        mode: (ONE_BITS, 0, 0),
    }
}

impl Vertex {
    /// Builds a vertex for flat shape rendering.
    pub fn as_shape(position: (u32, u32), color: (u32, u32, u32, u32)) -> (r: Vertex)
        ensures
            r == shape_vertex(position, color),
    {
        Vertex {
            position: (position.0, position.1, 0),
            texcoord: (0, 0, 0),
            color: color,
            mode: (0, 0, ONE_BITS),
        }
    }

    /// Builds a vertex for texture rendering.
    pub fn as_texture(position: (u32, u32), texcoord: (u32, u32), color: (u32, u32, u32, u32)) -> (r:
        Vertex)
        ensures
            r == texture_vertex(position, texcoord, color),
    {
        Vertex {
            position: (position.0, position.1, 0),
            texcoord: (texcoord.0, texcoord.1, 0),
            color: color,
            mode: (ONE_BITS, 0, 0),
        }
    }
}

} // verus!
