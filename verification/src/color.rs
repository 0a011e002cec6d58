//! RGBA colors and the byte layout in which pixel data reaches the GPU.

use vstd::prelude::*;

verus! {

/// An sRGBA color with premultiplied alpha, one byte per channel.
#[derive(Clone, Copy, Debug, PartialEq, Eq, Structural)]
pub struct Color32 {
    pub r: u8,
    pub g: u8,
    pub b: u8,
    pub a: u8,
}

impl Color32 {
    /// The channel with number `k`: red, green, blue, alpha for 0, 1, 2, 3.
    pub open spec fn channel(self, k: int) -> u8 {
        if k == 0 {
            self.r
        } else if k == 1 {
            self.g
        } else if k == 2 {
            self.b
        } else {
            self.a
        }
    }

    /// The four channels in the order red, green, blue, alpha.
    pub fn to_array(&self) -> (out: [u8; 4])
        ensures
            out@ == seq![self.r, self.g, self.b, self.a],
            forall|k: int| 0 <= k < 4 ==> out@[k] == self.channel(k),
    {
        [self.r, self.g, self.b, self.a]
    }
}

/// The tightly packed RGBA8 bytes of a run of pixels: four bytes per pixel,
/// pixels in their given order.
pub open spec fn rgba_bytes(pixels: Seq<Color32>) -> Seq<u8> {
    Seq::new(4 * pixels.len(), |k: int| pixels[k / 4].channel(k % 4))
}

/// Lays a run of pixels out as tightly packed RGBA8 bytes.
pub fn flatten_pixels(pixels: &[Color32]) -> (bytes: Vec<u8>)
    ensures
        bytes@ == rgba_bytes(pixels@),
{
    let mut bytes: Vec<u8> = Vec::new();
    let mut i: usize = 0;
    while i < pixels.len()
        invariant
            i <= pixels.len(),
            bytes@.len() == 4 * i,
            forall|k: int| 0 <= k < 4 * i ==> bytes@[k] == pixels@[k / 4].channel(k % 4),
        decreases pixels.len() - i,
    {
        let c = pixels[i];
        bytes.push(c.r);
        bytes.push(c.g);
        bytes.push(c.b);
        bytes.push(c.a);
        i += 1;
    }
    assert(bytes@ =~= rgba_bytes(pixels@));
    bytes
}

} // verus!
