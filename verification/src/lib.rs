//! A minimal 2D rendering core: draw requests issued over a frame are
//! accumulated as vertices, merged into contiguous batches that share a
//! rendering mode and texture binding, and turned into one ordered list of
//! GPU commands per flush.  Platform concerns (window, GL context, event
//! pump) live outside this crate; the core exchanges plain values with them.

pub mod batcher;
pub mod canvas;
pub mod fbits;
pub mod input;
pub mod laws;
pub mod matrix;
pub mod quad;
pub mod texture;
pub mod vertex;

pub use batcher::BatchModes;
pub use batcher::Batch;
pub use batcher::Batcher;
pub use canvas::Canvas;
pub use input::GamepadButton;
pub use input::Input;
pub use input::KeyCode;
pub use input::MouseButton;
pub use quad::Quad;
pub use texture::Texture;
pub use vertex::Vertex;
