//! Verified core of an OpenGL renderer for an immediate-mode GUI.
//!
//! The crate decides *what* has to be sent to the GPU each frame: texture
//! uploads, scissor rectangles, vertex streams and their order. It never
//! talks to a GPU itself. Every operation that would touch the GPU returns
//! the list of [`command::GlCommand`]s to replay on the thread that owns the
//! OpenGL context.
//!
//! [`painter`] holds the texture store and the frame renderer, [`model`]
//! the mathematical model that their contracts are stated over, and
//! [`theorems`] what is proved of that model. [`input`] turns the events of
//! a window into input events for the GUI.

pub mod color;
pub mod command;
pub mod input;
pub mod mesh;
pub mod model;
pub mod painter;
pub mod point;
pub mod scissor;
pub mod shader;
pub mod texture;
pub mod theorems;

pub use color::Color32;
pub use command::GlCommand;
pub use input::{
    handle_event,
    translate_cursor,
    translate_virtual_key_code,
    EguiInputState,
};
pub use mesh::{ClippedPrimitive, Mesh, Primitive, Vertex};
pub use painter::{GlObjects, Painter, UserTexture};
pub use point::Point;
pub use scissor::{PixelRect, Scissor};
pub use texture::{ColorImage, ImageDelta, TextureFilter, TextureId, TexturesDelta};
