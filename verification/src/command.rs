//! The GPU commands that the renderer asks its backend to issue.
//!
//! A command stands for one OpenGL call with its arguments fixed. The
//! renderer returns commands in the order in which they must be issued; the
//! backend replays them on the thread that owns the context and decides
//! nothing itself.

use vstd::prelude::*;
use crate::scissor::Scissor;
use crate::texture::TextureFilter;

verus! {

/// A server-side capability that is switched on or off.
#[derive(Clone, Copy, Debug, PartialEq, Eq, Structural)]
pub enum Capability {
    FramebufferSrgb,
    ScissorTest,
    Blend,
}

/// A parameter of the texture bound to the 2D target.
#[derive(Clone, Copy, Debug, PartialEq, Eq, Structural)]
pub enum TextureParameter {
    /// Clamp horizontal texture coordinates to the edge.
    WrapSClampToEdge,
    /// Clamp vertical texture coordinates to the edge.
    WrapTClampToEdge,
    /// Filter used when the texture is shrunk.
    MinFilter(TextureFilter),
    /// Filter used when the texture is enlarged.
    MagFilter(TextureFilter),
    /// Read the alpha channel from the red channel.
    SwizzleAlphaFromRed,
}

/// The binding point of a buffer object.
#[derive(Clone, Copy, Debug, PartialEq, Eq, Structural)]
pub enum BufferTarget {
    /// Vertex indices.
    ElementArray,
    /// Vertex attributes.
    Array,
}

/// A vertex attribute of the shader program, with the layout of its stream.
#[derive(Clone, Copy, Debug, PartialEq, Eq, Structural)]
pub enum Attribute {
    /// `a_pos`: two single-precision floats per vertex.
    Position,
    /// `a_tc`: two single-precision floats per vertex.
    TexCoord,
    /// `a_srgba`: four unsigned bytes per vertex, not normalized.
    Color,
}

/// The data streamed into a buffer object.
#[derive(Clone, Debug, PartialEq, Eq)]
pub enum BufferContents {
    /// 16-bit vertex indices.
    Indices(Vec<u16>),
    /// Single-precision floats, each carried as its IEEE 754 bit pattern.
    Floats(Vec<u32>),
    /// Unsigned bytes.
    Bytes(Vec<u8>),
}

/// The mathematical value of a [`BufferContents`].
pub enum BufferContentsView {
    Indices(Seq<u16>),
    Floats(Seq<u32>),
    Bytes(Seq<u8>),
}

impl View for BufferContents {
    type V = BufferContentsView;

    open spec fn view(&self) -> BufferContentsView {
        match *self {
            BufferContents::Indices(v) => BufferContentsView::Indices(v@),
            BufferContents::Floats(v) => BufferContentsView::Floats(v@),
            BufferContents::Bytes(v) => BufferContentsView::Bytes(v@),
        }
    }
}

/// One OpenGL call.
#[derive(Clone, Debug, PartialEq, Eq)]
pub enum GlCommand {
    /// `glEnable`.
    Enable(Capability),
    /// `glDisable`.
    Disable(Capability),
    /// `glBlendFunc(GL_ONE, GL_ONE_MINUS_SRC_ALPHA)`: blending for
    /// premultiplied alpha.
    BlendPremultipliedAlpha,
    /// `glUseProgram`.
    UseProgram(u32),
    /// `glActiveTexture(GL_TEXTURE0 + unit)`.
    ActiveTexture(u32),
    /// Sets the uniform `u_screen_size` to the canvas size in logical
    /// points. The command carries the size in physical pixels; the backend
    /// divides it by the number of pixels per point.
    ScreenSize { width: u32, height: u32 },
    /// Sets the uniform `u_sampler` to a texture unit.
    Sampler(u32),
    /// `glViewport(0, 0, width, height)`.
    Viewport { width: u32, height: u32 },
    /// `glBindTexture(GL_TEXTURE_2D, texture)`.
    BindTexture(u32),
    /// `glTexParameteri(GL_TEXTURE_2D, ..)`.
    TexParameter(TextureParameter),
    /// `glPixelStorei(GL_UNPACK_ALIGNMENT, bytes)`.
    UnpackAlignment(u32),
    /// `glTexImage2D`: replaces the whole image of the bound texture with
    /// the RGBA8 pixels in `pixels`, tightly packed. The renderer issues it
    /// only with at least `4 * width * height` bytes.
    TexImage { width: i32, height: i32, pixels: Vec<u8> },
    /// `glTexSubImage2D`: overwrites a region of the bound texture with
    /// RGBA8 pixels.
    TexSubImage { x: i32, y: i32, width: i32, height: i32, pixels: Vec<u8> },
    /// `glDeleteTextures` for one texture.
    DeleteTexture(u32),
    /// `glScissor`.
    Scissor(Scissor),
    /// `glBindVertexArray`.
    BindVertexArray(u32),
    /// `glBindBuffer`.
    BindBuffer(BufferTarget, u32),
    /// `glBufferData(.., GL_STREAM_DRAW)` on the buffer bound to the target.
    BufferData(BufferTarget, BufferContents),
    /// `glVertexAttribPointer` for the buffer bound to the array target,
    /// tightly packed from offset zero.
    VertexAttribPointer(Attribute),
    /// `glEnableVertexAttribArray`.
    EnableVertexAttribArray(Attribute),
    /// `glDisableVertexAttribArray`.
    DisableVertexAttribArray(Attribute),
    /// `glDrawElements(GL_TRIANGLES, index_count, GL_UNSIGNED_SHORT, 0)`.
    DrawTriangles { index_count: i32 },
}

/// The mathematical value of a [`GlCommand`].
pub enum GlCommandView {
    Enable(Capability),
    Disable(Capability),
    BlendPremultipliedAlpha,
    UseProgram(u32),
    ActiveTexture(u32),
    ScreenSize { width: u32, height: u32 },
    Sampler(u32),
    Viewport { width: u32, height: u32 },
    BindTexture(u32),
    TexParameter(TextureParameter),
    UnpackAlignment(u32),
    TexImage { width: i32, height: i32, pixels: Seq<u8> },
    TexSubImage { x: i32, y: i32, width: i32, height: i32, pixels: Seq<u8> },
    DeleteTexture(u32),
    Scissor(Scissor),
    BindVertexArray(u32),
    BindBuffer(BufferTarget, u32),
    BufferData(BufferTarget, BufferContentsView),
    VertexAttribPointer(Attribute),
    EnableVertexAttribArray(Attribute),
    DisableVertexAttribArray(Attribute),
    DrawTriangles { index_count: i32 },
}

impl View for GlCommand {
    type V = GlCommandView;

    open spec fn view(&self) -> GlCommandView {
        match *self {
            GlCommand::Enable(c) => GlCommandView::Enable(c),
            GlCommand::Disable(c) => GlCommandView::Disable(c),
            GlCommand::BlendPremultipliedAlpha => GlCommandView::BlendPremultipliedAlpha,
            GlCommand::UseProgram(p) => GlCommandView::UseProgram(p),
            GlCommand::ActiveTexture(u) => GlCommandView::ActiveTexture(u),
            GlCommand::ScreenSize { width, height } => GlCommandView::ScreenSize { width, height },
            GlCommand::Sampler(u) => GlCommandView::Sampler(u),
            GlCommand::Viewport { width, height } => GlCommandView::Viewport { width, height },
            GlCommand::BindTexture(t) => GlCommandView::BindTexture(t),
            GlCommand::TexParameter(p) => GlCommandView::TexParameter(p),
            GlCommand::UnpackAlignment(n) => GlCommandView::UnpackAlignment(n),
            GlCommand::TexImage { width, height, pixels } => GlCommandView::TexImage {
                width,
                height,
                pixels: pixels@,
            },
            GlCommand::TexSubImage { x, y, width, height, pixels } => GlCommandView::TexSubImage {
                x,
                y,
                width,
                height,
                pixels: pixels@,
            },
            GlCommand::DeleteTexture(t) => GlCommandView::DeleteTexture(t),
            GlCommand::Scissor(s) => GlCommandView::Scissor(s),
            GlCommand::BindVertexArray(a) => GlCommandView::BindVertexArray(a),
            GlCommand::BindBuffer(t, b) => GlCommandView::BindBuffer(t, b),
            GlCommand::BufferData(t, d) => GlCommandView::BufferData(t, d@),
            GlCommand::VertexAttribPointer(a) => GlCommandView::VertexAttribPointer(a),
            GlCommand::EnableVertexAttribArray(a) => GlCommandView::EnableVertexAttribArray(a),
            GlCommand::DisableVertexAttribArray(a) => GlCommandView::DisableVertexAttribArray(a),
            GlCommand::DrawTriangles { index_count } => GlCommandView::DrawTriangles {
                index_count,
            },
        }
    }
}

/// The mathematical values of a run of commands, in order.
pub open spec fn command_views(commands: Seq<GlCommand>) -> Seq<GlCommandView> {
    Seq::new(commands.len(), |i: int| commands[i]@)
}

/// Appends the commands of `more` to `commands`, keeping their order.
pub fn append_commands(commands: &mut Vec<GlCommand>, more: Vec<GlCommand>)
    ensures
        command_views(final(commands)@) == command_views(old(commands)@) + command_views(more@),
{
    let mut more = more;
    let ghost before = commands@;
    let ghost added = more@;
    commands.append(&mut more);
    assert(commands@ == before + added);
    assert(command_views(commands@) =~= command_views(before) + command_views(added));
}

} // verus!
