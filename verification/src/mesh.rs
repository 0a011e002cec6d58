//! Tessellated geometry and the vertex streams built from it.

use vstd::prelude::*;
use crate::color::Color32;
use crate::point::Point;
use crate::scissor::PixelRect;
use crate::texture::TextureId;

verus! {

/// One corner of a triangle.
#[derive(Clone, Copy, Debug, PartialEq, Eq, Structural)]
pub struct Vertex {
    /// Position in logical points; the origin is the top-left corner.
    pub pos: Point,
    /// Normalized texture coordinates.
    pub uv: Point,
    /// Color with premultiplied alpha.
    pub color: Color32,
}

/// Textured triangles: every three indices name the corners of one triangle.
#[derive(Clone, Debug, PartialEq, Eq)]
pub struct Mesh {
    pub indices: Vec<u32>,
    pub vertices: Vec<Vertex>,
    pub texture_id: TextureId,
}

/// What a primitive draws.
#[derive(Clone, Debug, PartialEq, Eq)]
pub enum Primitive {
    /// A mesh of triangles.
    Mesh(Mesh),
    /// A drawing routine supplied by the application. The renderer cannot
    /// run one; a frame that contains one cannot be painted.
    Callback,
}

/// A primitive together with the rectangle outside of which nothing of it
/// may be drawn.
#[derive(Clone, Debug, PartialEq, Eq)]
pub struct ClippedPrimitive {
    pub clip_rect: PixelRect,
    pub primitive: Primitive,
}

/// Every index names a vertex, and the vertices can be counted in 32 bits.
pub open spec fn indices_in_range(indices: Seq<u32>, vertex_count: nat) -> bool {
    &&& vertex_count <= u32::MAX
    &&& forall|i: int| 0 <= i < indices.len() ==> (#[trigger] indices[i]) < vertex_count
}

/// The indices narrowed to 16 bits, in order.
pub open spec fn narrowed_indices(indices: Seq<u32>) -> Seq<u16> {
    Seq::new(indices.len(), |i: int| indices[i] as u16)
}

/// The position stream: `x` and `y` of each vertex in turn.
pub open spec fn position_stream(vertices: Seq<Vertex>) -> Seq<u32> {
    Seq::new(
        2 * vertices.len(),
        |k: int|
            if k % 2 == 0 {
                vertices[k / 2].pos.x
            } else {
                vertices[k / 2].pos.y
            },
    )
}

/// The texture-coordinate stream: `x` and `y` of each vertex in turn.
pub open spec fn tex_coord_stream(vertices: Seq<Vertex>) -> Seq<u32> {
    Seq::new(
        2 * vertices.len(),
        |k: int|
            if k % 2 == 0 {
                vertices[k / 2].uv.x
            } else {
                vertices[k / 2].uv.y
            },
    )
}

/// The color stream: red, green, blue and alpha of each vertex in turn.
pub open spec fn color_stream(vertices: Seq<Vertex>) -> Seq<u8> {
    Seq::new(4 * vertices.len(), |k: int| vertices[k / 4].color.channel(k % 4))
}

impl Mesh {
    /// The mesh is well formed: see [`indices_in_range`].
    pub open spec fn valid(&self) -> bool {
        indices_in_range(self.indices@, self.vertices@.len())
    }

    /// The mesh can be drawn with 16-bit indices in one call: it is well
    /// formed, has at most 65535 vertices, and its index count fits the
    /// signed 32-bit count of a draw call.
    pub open spec fn drawable(&self) -> bool {
        &&& self.valid()
        &&& self.vertices@.len() <= u16::MAX
        &&& self.indices@.len() <= i32::MAX
    }

    /// Tells whether the mesh is well formed.
    pub fn is_valid(&self) -> (ok: bool)
        ensures
            ok == self.valid(),
    {
        let n = self.vertices.len();
        if n > u32::MAX as usize {
            return false;
        }
        let mut i: usize = 0;
        while i < self.indices.len()
            invariant
                i <= self.indices@.len(),
                n == self.vertices@.len(),
                n <= u32::MAX,
                forall|j: int| 0 <= j < i ==> (#[trigger] self.indices@[j]) < n,
            decreases self.indices@.len() - i,
        {
            if self.indices[i] as usize >= n {
                return false;
            }
            i += 1;
        }
        true
    }

    /// Tells whether the mesh can be drawn with 16-bit indices in one call.
    pub fn is_drawable(&self) -> (ok: bool)
        ensures
            ok == self.drawable(),
    {
        self.vertices.len() <= u16::MAX as usize && self.indices.len() <= i32::MAX as usize
            && self.is_valid()
    }

    /// The index stream of a drawable mesh. No index loses a bit.
    pub fn index_stream(&self) -> (out: Vec<u16>)
        requires
            self.drawable(),
        ensures
            out@ == narrowed_indices(self.indices@),
            forall|i: int| 0 <= i < out@.len() ==> out@[i] == self.indices@[i],
    {
        let mut out: Vec<u16> = Vec::new();
        let mut i: usize = 0;
        while i < self.indices.len()
            invariant
                i <= self.indices@.len(),
                self.drawable(),
                out@.len() == i,
                forall|j: int| 0 <= j < i ==> out@[j] == self.indices@[j],
            decreases self.indices@.len() - i,
        {
            let idx = self.indices[i];
            assert(idx < self.vertices@.len());
            out.push(idx as u16);
            i += 1;
        }
        assert(out@ =~= narrowed_indices(self.indices@));
        out
    }

    /// The position stream of the vertices.
    pub fn positions(&self) -> (out: Vec<u32>)
        ensures
            out@ == position_stream(self.vertices@),
    {
        let mut out: Vec<u32> = Vec::new();
        let mut i: usize = 0;
        while i < self.vertices.len()
            invariant
                i <= self.vertices@.len(),
                out@.len() == 2 * i,
                forall|k: int|
                    0 <= k < 2 * i ==> out@[k] == if k % 2 == 0 {
                        self.vertices@[k / 2].pos.x
                    } else {
                        self.vertices@[k / 2].pos.y
                    },
            decreases self.vertices@.len() - i,
        {
            let v = self.vertices[i];
            out.push(v.pos.x);
            out.push(v.pos.y);
            i += 1;
        }
        assert(out@ =~= position_stream(self.vertices@));
        out
    }

    /// The texture-coordinate stream of the vertices.
    pub fn tex_coords(&self) -> (out: Vec<u32>)
        ensures
            out@ == tex_coord_stream(self.vertices@),
    {
        let mut out: Vec<u32> = Vec::new();
        let mut i: usize = 0;
        while i < self.vertices.len()
            invariant
                i <= self.vertices@.len(),
                out@.len() == 2 * i,
                forall|k: int|
                    0 <= k < 2 * i ==> out@[k] == if k % 2 == 0 {
                        self.vertices@[k / 2].uv.x
                    } else {
                        self.vertices@[k / 2].uv.y
                    },
            decreases self.vertices@.len() - i,
        {
            let v = self.vertices[i];
            out.push(v.uv.x);
            out.push(v.uv.y);
            i += 1;
        }
        assert(out@ =~= tex_coord_stream(self.vertices@));
        out
    }

    /// The color stream of the vertices.
    pub fn colors(&self) -> (out: Vec<u8>)
        ensures
            out@ == color_stream(self.vertices@),
    {
        let mut out: Vec<u8> = Vec::new();
        let mut i: usize = 0;
        while i < self.vertices.len()
            invariant
                i <= self.vertices@.len(),
                out@.len() == 4 * i,
                forall|k: int|
                    0 <= k < 4 * i ==> out@[k] == self.vertices@[k / 4].color.channel(k % 4),
            decreases self.vertices@.len() - i,
        {
            let c = self.vertices[i].color;
            out.push(c.r);
            out.push(c.g);
            out.push(c.b);
            out.push(c.a);
            i += 1;
        }
        assert(out@ =~= color_stream(self.vertices@));
        out
    }
}

} // verus!
