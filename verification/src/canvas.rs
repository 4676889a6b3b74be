//! An off-screen render target: a texture paired with a framebuffer
//! binding, so drawing can be redirected away from the visible surface.
//!
//! Allocating the GPU objects (a blank texture of the requested size and a
//! framebuffer with that texture attached) happens at the platform layer,
//! which hands both handles in.

use vstd::prelude::*;

use crate::texture::Texture;

verus! {

/// An invisible surface that can be drawn to, and later drawn itself as a
/// texture.
pub struct Canvas {
    pub handle: u32,
    pub texture: Texture,
}

impl Canvas {
    /// Creates a new Canvas of the given size around the handles of an
    /// allocated framebuffer and of the blank texture attached to it.
    pub fn new(width: u32, height: u32, texture_handle: u32, framebuffer_handle: u32) -> (r: Self)
        ensures
            r.handle == framebuffer_handle,
            r.texture.width == width,
            r.texture.height == height,
            r.texture.handle == texture_handle,
    {
        let texture = Texture::new(texture_handle).with_size(width, height);
        Self { handle: framebuffer_handle, texture }
    }

    /// Returns the width of the Canvas.
    pub fn get_width(&self) -> (r: u32)
        ensures
            r == self.texture.width,
    {
        self.texture.get_width()
    }

    /// Returns the height of the Canvas.
    pub fn get_height(&self) -> (r: u32)
        ensures
            r == self.texture.height,
    {
        self.texture.get_height()
    }
}

} // verus!
