//! Texture identifiers and the image updates that arrive with a frame.

use vstd::prelude::*;
use crate::color::Color32;

verus! {

/// Names a texture. The two kinds never collide: a managed texture and a
/// user texture with the same number are different textures.
#[derive(Clone, Copy, Debug, PartialEq, Eq, Structural, Hash)]
pub enum TextureId {
    /// A texture allocated by the GUI toolkit, such as its font atlas.
    Managed(u64),
    /// A texture created by the application.
    User(u64),
}

/// How texels are sampled when a texture is scaled.
#[derive(Clone, Copy, Debug, PartialEq, Eq, Structural)]
pub enum TextureFilter {
    /// Take the nearest texel.
    Nearest,
    /// Interpolate linearly between the neighbouring texels.
    Linear,
}

/// An image of RGBA pixels, row by row from the top.
#[derive(Clone, Debug, PartialEq, Eq)]
pub struct ColorImage {
    /// Width in texels.
    pub width: usize,
    /// Height in texels.
    pub height: usize,
    pub pixels: Vec<Color32>,
}

impl ColorImage {
    /// The image holds exactly one pixel for each texel of its size.
    pub open spec fn consistent(&self) -> bool {
        self.width * self.height == self.pixels@.len()
    }

    /// Tells whether the image holds one pixel for each texel of its size.
    pub fn is_consistent(&self) -> (ok: bool)
        ensures
            ok == self.consistent(),
    {
        let pixel_count = self.pixels.len();
        match self.width.checked_mul(self.height) {
            Some(n) => n == pixel_count,
            None => false,
        }
    }
}

/// A texel of a texture, counted from its top-left corner.
#[derive(Clone, Copy, Debug, PartialEq, Eq, Structural)]
pub struct TexelPos {
    pub x: usize,
    pub y: usize,
}

/// A change to one texture: a whole new image, or a patch of an existing one.
#[derive(Clone, Debug, PartialEq, Eq)]
pub struct ImageDelta {
    /// The whole image if `pos` is `None`, else the patch.
    pub image: ColorImage,
    /// The filter of the texture; read when the whole image is set.
    pub filter: TextureFilter,
    /// Where the patch goes: the texel of its top-left corner.
    pub pos: Option<TexelPos>,
}

/// The texture changes that accompany the primitives of one frame.
#[derive(Clone, Debug, PartialEq, Eq)]
pub struct TexturesDelta {
    /// Textures to create or change before painting, in order.
    pub set: Vec<(TextureId, ImageDelta)>,
    /// Textures to free after painting.
    pub free: Vec<TextureId>,
}

} // verus!
