//! A GPU-resident 2D image reference.
//!
//! The core only needs a texture's dimensions and a stable handle; pixel
//! decoding and the upload to the GPU happen at the platform layer, which
//! hands the resulting handle in.

use vstd::prelude::*;

verus! {

/// A 2D texture used for rendering: dimensions plus an opaque GPU handle.
pub struct Texture {
    pub width: u32,
    pub height: u32,
    pub handle: u32,
}

impl Texture {
    /// Creates an empty Texture, used as a placeholder before a real image
    /// is loaded.  Drawing with it is the host's responsibility to avoid.
    pub fn empty() -> (r: Self)
        ensures
            r.width == 0,
            r.height == 0,
            r.handle == 0,
    {
        Self { width: 0, height: 0, handle: 0 }
    }

    /// Creates a new Texture around a freshly generated GPU handle.  The
    /// dimensions stay zero until an image is attached.
    pub fn new(handle: u32) -> (r: Self)
        ensures
            r.width == 0,
            r.height == 0,
            r.handle == handle,
    {
        Self { width: 0, height: 0, handle }
    }

    /// Records the dimensions of the image that was uploaded to this
    /// texture's handle.
    pub fn with_size(self, width: u32, height: u32) -> (r: Self)
        ensures
            r.width == width,
            r.height == height,
            r.handle == self.handle,
    {
        Self { width, height, handle: self.handle }
    }

    /// Returns the width of the Texture.
    pub fn get_width(&self) -> (r: u32)
        ensures
            r == self.width,
    {
        self.width
    }

    /// Returns the height of the Texture.
    pub fn get_height(&self) -> (r: u32)
        ensures
            r == self.height,
    {
        self.height
    }
}

} // verus!
