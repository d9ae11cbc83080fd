//! A minimal immediate-mode 2D rendering back-end.
//!
//! Geometry arrives as flat arrays of positions and per-vertex colours, is
//! batched into bounded staging storage and leaves as a recorded sequence of
//! upload-and-draw submissions for the GPU device.

pub mod batch;
pub mod gfx2d;
pub mod model;
pub mod shader;
pub mod vertex;

pub use crate::batch::BUFFER_SIZE;
pub use crate::gfx2d::{Gfx2d, PushError, Submission};
pub use crate::shader::{Dialect, InitError, Program, Stage};
pub use crate::vertex::{Vertex, VertexUV};
