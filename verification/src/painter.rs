//! The texture store and the frame renderer.
//!
//! A [`Painter`] owns the textures it draws with. Each texture keeps the
//! pixels that still have to reach the GPU and the name of its GPU object
//! once it has one. Nothing here calls the GPU: every operation returns the
//! commands to issue, and [`Painter::upload_user_textures`] is handed the
//! names of fresh GPU texture objects by the caller.
//!
//! What an operation does is stated over the model of [`crate::model`].

use vstd::prelude::*;
use crate::color::{flatten_pixels, rgba_bytes, Color32};
use crate::command::{
    append_commands,
    command_views,
    Attribute,
    BufferContents,
    BufferTarget,
    Capability,
    GlCommand,
    TextureParameter,
};
use crate::mesh::{ClippedPrimitive, Mesh, Primitive};
use crate::model::{
    accepts_delta,
    accepts_deltas,
    accepts_deltas_before,
    after_delta,
    after_deltas,
    after_deltas_before,
    after_frame,
    after_frees_before,
    after_upload,
    all_paintable,
    all_uploaded,
    delta_commands,
    deltas_commands_before,
    frame_commands,
    frame_paintable,
    frame_plan,
    frame_prologue,
    frame_epilogue,
    frees_commands_before,
    fresh_name,
    has_texture,
    is_next_user_id,
    mesh_commands,
    mesh_paintable,
    paint_commands,
    paintable_before,
    primitive_paintable,
    primitives_commands_before,
    release_commands,
    same_outline,
    skipped_patches_before,
    skips_delta,
    slot_index,
    store_wf,
    texture_of,
    unallocated,
    unallocated_before,
    upload_commands,
    upload_commands_before,
    with_texture,
    without_texture,
    PainterView,
    TextureSlot,
    TextureState,
};
use crate::scissor::{scissor_rect, PixelRect};
use crate::texture::{ImageDelta, TextureFilter, TextureId, TexturesDelta};
use crate::theorems::{
    lemma_accepts_deltas_prefix,
    lemma_free_keeps_uploaded,
    lemma_outline_delta,
    lemma_outline_lookup,
    lemma_outline_paintable,
    lemma_outline_transitive,
    lemma_outline_unallocated,
    lemma_outline_wf,
    lemma_unallocated_monotone,
    lemma_upload_keeps_ids,
    lemma_user_numbers_fill_slots,
    theorem_delta_keeps_store,
    theorem_with_texture,
};

verus! {

/// A texture of the store: its description, the pixels that wait for
/// upload, and its GPU object.
pub struct UserTexture {
    size: (usize, usize),
    /// Pending upload; emptied by the upload.
    pixels: Vec<u8>,
    /// Created by the first upload.
    texture: Option<u32>,
    filtering: TextureFilter,
    /// The pixel data has changed since the last upload.
    dirty: bool,
}

impl View for UserTexture {
    type V = TextureState;

    closed spec fn view(&self) -> TextureState {
        TextureState {
            size: self.size,
            pixels: self.pixels@,
            texture: self.texture,
            filtering: self.filtering,
            dirty: self.dirty,
        }
    }
}

impl UserTexture {
    /// A texture of `size` texels whose `pixels` wait for their first upload.
    pub fn new(size: (usize, usize), pixels: Vec<u8>, filtering: TextureFilter) -> (t: UserTexture)
        requires
            size.0 <= i32::MAX,
            size.1 <= i32::MAX,
        ensures
            t@ == (TextureState { size, pixels: pixels@, texture: None, filtering, dirty: true }),
            t@.wf(),
    {
        UserTexture { size, pixels, texture: None, filtering, dirty: true }
    }

    /// Adopts an existing GPU texture object. Nothing is known of its size.
    pub fn from_raw(id: u32) -> (t: UserTexture)
        ensures
            t@ == (TextureState {
                size: (0, 0),
                pixels: Seq::empty(),
                texture: Some(id),
                filtering: TextureFilter::Linear,
                dirty: false,
            }),
            t@.wf(),
    {
        UserTexture {
            size: (0, 0),
            texture: Some(id),
            filtering: TextureFilter::Linear,
            dirty: false,
            pixels: Vec::new(),
        }
    }

    /// Width and height in texels.
    pub fn size(&self) -> (size: (usize, usize))
        ensures
            size == self@.size,
    {
        self.size
    }

    /// The name of the GPU texture object, once there is one.
    pub fn texture(&self) -> (texture: Option<u32>)
        ensures
            texture == self@.texture,
    {
        self.texture
    }

    /// The filter that the GPU object is set up with.
    pub fn filtering(&self) -> (filtering: TextureFilter)
        ensures
            filtering == self@.filtering,
    {
        self.filtering
    }

    /// Whether the texture has changed since it was last uploaded.
    pub fn is_dirty(&self) -> (dirty: bool)
        ensures
            dirty == self@.dirty,
    {
        self.dirty
    }

    /// The RGBA8 bytes that wait to be uploaded.
    pub fn pending_pixels(&self) -> (pixels: &Vec<u8>)
        ensures
            pixels@ == self@.pixels,
    {
        &self.pixels
    }

    /// Tells whether a region lies inside the texture.
    pub fn contains_region(&self, x_offset: i32, y_offset: i32, width: i32, height: i32) -> (ok:
        bool)
        requires
            self@.wf(),
        ensures
            ok == self@.contains_region(
                x_offset as int,
                y_offset as int,
                width as int,
                height as int,
            ),
    {
        x_offset as i64 + width as i64 <= self.size.0 as i64 && y_offset as i64 + height as i64
            <= self.size.1 as i64
    }

    /// Overwrites a region of the texture on the GPU with `bytes` and marks
    /// the texture dirty. The texture must have a GPU object and the region
    /// must lie inside it.
    pub fn update_texture_part(
        &mut self,
        x_offset: i32,
        y_offset: i32,
        width: i32,
        height: i32,
        bytes: Vec<u8>,
    ) -> (commands: Vec<GlCommand>)
        requires
            old(self)@.wf(),
            old(self)@.texture is Some,
            old(self)@.contains_region(
                x_offset as int,
                y_offset as int,
                width as int,
                height as int,
            ),
        ensures
            final(self)@ == old(self)@.patched(),
            final(self)@.wf(),
            command_views(commands@) == old(self)@.patch_commands(
                x_offset,
                y_offset,
                width,
                height,
                bytes@,
            ),
    {
        let mut commands: Vec<GlCommand> = Vec::new();
        match self.texture {
            Some(t) => {
                commands.push(GlCommand::BindTexture(t));
            },
            None => {},
        }
        commands.push(GlCommand::UnpackAlignment(1));
        commands.push(GlCommand::TexParameter(TextureParameter::SwizzleAlphaFromRed));
        commands.push(
            GlCommand::TexSubImage { x: x_offset, y: y_offset, width, height, pixels: bytes },
        );
        self.dirty = true;
        assert(command_views(commands@) =~= old(self)@.patch_commands(
            x_offset,
            y_offset,
            width,
            height,
            bytes@,
        ));
        commands
    }

    /// The commands that release the GPU object, if there is one.
    pub fn delete(&self) -> (commands: Vec<GlCommand>)
        ensures
            command_views(commands@) == self@.delete_commands(),
    {
        let mut commands: Vec<GlCommand> = Vec::new();
        match self.texture {
            Some(t) => {
                commands.push(GlCommand::DeleteTexture(t));
            },
            None => {},
        }
        assert(command_views(commands@) =~= self@.delete_commands());
        commands
    }

    /// Tells whether the pending pixels make a whole image.
    fn has_whole_image(&self) -> (whole: bool)
        requires
            self@.wf(),
        ensures
            whole == self@.has_whole_image(),
    {
        let width = self.size.0 as u64;
        let height = self.size.1 as u64;
        assert(4 * (width * height) <= u64::MAX && width * height >= 0) by (nonlinear_arith)
            requires
                0 <= width <= i32::MAX,
                0 <= height <= i32::MAX,
        ;
        assert(4 * (width * height) == 4 * self.size.0 * self.size.1) by (nonlinear_arith)
            requires
                width == self.size.0,
                height == self.size.1,
        ;
        let needed: u64 = 4 * (width * height);
        self.pixels.len() as u64 >= needed
    }

    /// Uploads the texture if it needs it: creates the GPU object under the
    /// name `fresh` if there was none, sends the pending pixels as the whole
    /// image if they make one, and leaves the texture clean with nothing
    /// pending.
    fn upload(&mut self, fresh: u32) -> (commands: Vec<GlCommand>)
        requires
            old(self)@.wf(),
        ensures
            final(self)@ == (if old(self)@.needs_upload() {
                old(self)@.uploaded(fresh)
            } else {
                old(self)@
            }),
            final(self)@.wf(),
            command_views(commands@) == old(self)@.upload_commands(fresh),
    {
        let mut commands: Vec<GlCommand> = Vec::new();
        if self.texture.is_none() || self.dirty {
            let whole = self.has_whole_image();
            let mut pixels: Vec<u8> = Vec::new();
            std::mem::swap(&mut self.pixels, &mut pixels);
            match self.texture {
                Some(t) => {
                    if whole {
                        commands.push(GlCommand::BindTexture(t));
                    }
                },
                None => {
                    commands.push(GlCommand::BindTexture(fresh));
                    commands.push(GlCommand::TexParameter(TextureParameter::WrapSClampToEdge));
                    commands.push(GlCommand::TexParameter(TextureParameter::WrapTClampToEdge));
                    commands.push(
                        GlCommand::TexParameter(TextureParameter::MinFilter(self.filtering)),
                    );
                    commands.push(
                        GlCommand::TexParameter(TextureParameter::MagFilter(self.filtering)),
                    );
                    self.texture = Some(fresh);
                },
            }
            if whole {
                commands.push(
                    GlCommand::TexImage {
                        width: self.size.0 as i32,
                        height: self.size.1 as i32,
                        pixels,
                    },
                );
            }
            self.dirty = false;
        }
        assert(command_views(commands@) =~= old(self)@.upload_commands(fresh));
        commands
    }
}

/// The names of the GPU objects that a painter draws with.
#[derive(Clone, Copy, Debug, PartialEq, Eq, Structural)]
pub struct GlObjects {
    /// The linked shader program.
    pub program: u32,
    pub vertex_array: u32,
    /// Buffer for the vertex indices.
    pub index_buffer: u32,
    /// Buffer for the vertex positions.
    pub pos_buffer: u32,
    /// Buffer for the texture coordinates.
    pub tc_buffer: u32,
    /// Buffer for the vertex colors.
    pub color_buffer: u32,
}

/// What painting a frame takes.
#[derive(Clone, Debug, PartialEq, Eq)]
pub struct FramePlan {
    /// The number of fresh GPU texture names to hand in.
    pub names: usize,
    /// The positions in the set of the patches that the frame skips because
    /// their texture is not in the store when their turn comes.
    pub skipped: Vec<usize>,
}

/// Why a frame cannot be painted.
#[derive(Clone, Copy, Debug, PartialEq, Eq, Structural)]
pub enum FrameFault {
    /// The store does not take the delta with this position in the set,
    /// though it took the ones before it.
    Delta(usize),
    /// The store takes all the deltas, but the primitive with this position
    /// cannot be painted, though the ones before it can.
    Primitive(usize),
}

/// A texture of the store under its identifier.
struct TextureEntry {
    id: TextureId,
    texture: UserTexture,
}

/// The renderer: the GPU objects it draws with, the size of the canvas, and
/// the texture store.
pub struct Painter {
    objects: GlObjects,
    canvas_width: u32,
    canvas_height: u32,
    /// No identifier occurs twice; a texture keeps its slot while it lives.
    textures: Vec<TextureEntry>,
}

impl View for Painter {
    type V = PainterView;

    closed spec fn view(&self) -> PainterView {
        PainterView {
            objects: self.objects,
            canvas_width: self.canvas_width,
            canvas_height: self.canvas_height,
            textures: Seq::new(
                self.textures@.len(),
                |i: int|
                    TextureSlot { id: self.textures@[i].id, state: self.textures@[i].texture@ },
            ),
        }
    }
}

impl Painter {
    /// The invariant of a painter: that of its texture store.
    pub open spec fn wf(&self) -> bool {
        store_wf(self@.textures)
    }

    /// A painter with an empty texture store that draws with `objects` on a
    /// canvas of `canvas_width` by `canvas_height` pixels.
    pub fn new(objects: GlObjects, canvas_width: u32, canvas_height: u32) -> (painter: Painter)
        ensures
            painter.wf(),
            painter@ == (PainterView {
                objects,
                canvas_width,
                canvas_height,
                textures: Seq::empty(),
            }),
    {
        let painter = Painter { objects, canvas_width, canvas_height, textures: Vec::new() };
        assert(painter@.textures =~= Seq::empty());
        painter
    }

    /// The GPU objects that the painter draws with.
    pub fn objects(&self) -> (objects: GlObjects)
        ensures
            objects == self@.objects,
    {
        self.objects
    }

    /// Width and height of the canvas in physical pixels.
    pub fn canvas_size(&self) -> (size: (u32, u32))
        ensures
            size == (self@.canvas_width, self@.canvas_height),
    {
        (self.canvas_width, self.canvas_height)
    }

    /// The number of textures in the store.
    pub fn texture_count(&self) -> (n: usize)
        ensures
            n == self@.textures.len(),
    {
        self.textures.len()
    }

    /// The slot of the texture `id`.
    fn find(&self, id: TextureId) -> (found: Option<usize>)
        requires
            self.wf(),
        ensures
            match found {
                Some(i) => has_texture(self@.textures, id) && i == slot_index(self@.textures, id)
                    && i < self.textures@.len(),
                None => !has_texture(self@.textures, id),
            },
    {
        let mut i: usize = 0;
        while i < self.textures.len()
            invariant
                i <= self.textures@.len(),
                self.wf(),
                self@.textures.len() == self.textures@.len(),
                forall|j: int| 0 <= j < i ==> (#[trigger] self@.textures[j]).id != id,
            decreases self.textures@.len() - i,
        {
            if self.textures[i].id == id {
                assert(self@.textures[i as int].id == id);
                assert(has_texture(self@.textures, id));
                let ghost k = slot_index(self@.textures, id);
                assert(self@.textures[k].id == id);
                assert(k == i);
                return Some(i);
            }
            i += 1;
        }
        None
    }

    /// Looks a texture up.
    pub fn texture(&self, id: TextureId) -> (found: Option<&UserTexture>)
        requires
            self.wf(),
        ensures
            match found {
                Some(t) => texture_of(self@.textures, id) == Some(t@),
                None => texture_of(self@.textures, id) is None,
            },
    {
        match self.find(id) {
            Some(i) => Some(&self.textures[i].texture),
            None => None,
        }
    }

    /// Tells whether the store can take `delta` for the texture `tex_id`.
    pub fn accepts(&self, tex_id: TextureId, delta: &ImageDelta) -> (ok: bool)
        requires
            self.wf(),
        ensures
            ok == accepts_delta(self@.textures, tex_id, *delta),
    {
        let int_max: usize = i32::MAX as usize;
        match delta.pos {
            None => delta.image.is_consistent() && delta.image.width <= int_max
                && delta.image.height <= int_max,
            Some(pos) => match self.find(tex_id) {
                None => true,
                Some(i) => {
                    let texture = &self.textures[i].texture;
                    delta.image.is_consistent() && texture.texture.is_some()
                        && delta.image.width <= texture.size.0 && pos.x <= texture.size.0
                        - delta.image.width && delta.image.height <= texture.size.1 && pos.y
                        <= texture.size.1 - delta.image.height
                },
            },
        }
    }

    /// Tells whether `delta` is a patch for a texture that the store does not
    /// hold, which [`Painter::set_texture`] skips.
    pub fn skips(&self, tex_id: TextureId, delta: &ImageDelta) -> (skipped: bool)
        requires
            self.wf(),
        ensures
            skipped == skips_delta(self@.textures, tex_id, *delta),
    {
        delta.pos.is_some() && self.find(tex_id).is_none()
    }

    /// Applies `delta` to the texture `tex_id`.
    ///
    /// A whole image replaces the texture, or creates it in a new last slot;
    /// its pixels wait for the next upload, and the GPU object of a replaced
    /// texture is released. A patch is written to the GPU object of an
    /// existing texture at once and marks it dirty; a patch for an unknown
    /// texture changes nothing and issues nothing.
    pub fn set_texture(&mut self, tex_id: TextureId, delta: &ImageDelta) -> (commands: Vec<
        GlCommand,
    >)
        requires
            old(self).wf(),
            accepts_delta(old(self)@.textures, tex_id, *delta),
        ensures
            final(self).wf(),
            final(self)@ == (PainterView {
                textures: after_delta(old(self)@.textures, tex_id, *delta),
                ..old(self)@
            }),
            command_views(commands@) == delta_commands(old(self)@.textures, tex_id, *delta),
    {
        let found = self.find(tex_id);
        match delta.pos {
            Some(pos) => match found {
                Some(i) => {
                    let data = flatten_pixels(delta.image.pixels.as_slice());
                    let commands = self.textures[i].texture.update_texture_part(
                        pos.x as i32,
                        pos.y as i32,
                        delta.image.width as i32,
                        delta.image.height as i32,
                        data,
                    );
                    assert(self@.textures =~= after_delta(old(self)@.textures, tex_id, *delta));
                    commands
                },
                None => Vec::new(),
            },
            None => {
                let pixels = flatten_pixels(delta.image.pixels.as_slice());
                let texture = UserTexture::new(
                    (delta.image.width, delta.image.height),
                    pixels,
                    delta.filter,
                );
                match found {
                    Some(i) => {
                        let commands = self.textures[i].texture.delete();
                        self.textures[i].texture = texture;
                        assert(self@.textures =~= after_delta(old(self)@.textures, tex_id, *delta));
                        commands
                    },
                    None => {
                        self.textures.push(TextureEntry { id: tex_id, texture });
                        assert(self@.textures =~= after_delta(old(self)@.textures, tex_id, *delta));
                        Vec::new()
                    },
                }
            },
        }
    }

    /// Removes the texture `tex_id` from the store and releases its GPU
    /// object. Freeing an unknown texture changes nothing and issues nothing.
    pub fn free_texture(&mut self, tex_id: TextureId) -> (commands: Vec<GlCommand>)
        requires
            old(self).wf(),
        ensures
            final(self).wf(),
            final(self)@ == (PainterView {
                textures: without_texture(old(self)@.textures, tex_id),
                ..old(self)@
            }),
            !has_texture(final(self)@.textures, tex_id),
            command_views(commands@) == release_commands(old(self)@.textures, tex_id),
    {
        match self.find(tex_id) {
            Some(i) => {
                let entry = self.textures.remove(i);
                assert(self@.textures =~= without_texture(old(self)@.textures, tex_id));
                entry.texture.delete()
            },
            None => Vec::new(),
        }
    }

    /// The number of fresh GPU texture names that the next upload takes.
    pub fn unallocated_textures(&self) -> (n: usize)
        requires
            self.wf(),
        ensures
            n == unallocated(self@.textures),
    {
        let mut n: usize = 0;
        let mut i: usize = 0;
        while i < self.textures.len()
            invariant
                i <= self.textures@.len(),
                self@.textures.len() == self.textures@.len(),
                n == unallocated_before(self@.textures, i as int),
                n <= i,
            decreases self.textures@.len() - i,
        {
            if self.textures[i].texture.texture.is_none() {
                n += 1;
            }
            i += 1;
        }
        n
    }

    /// Creates a user texture from `srgba_pixels` in a new last slot and
    /// returns its identifier: the user identifier with the least number
    /// that the store does not hold. Every other texture stays as it is.
    pub fn new_user_texture(
        &mut self,
        size: (usize, usize),
        srgba_pixels: &[Color32],
        filtering: TextureFilter,
    ) -> (id: TextureId)
        requires
            old(self).wf(),
            size.0 * size.1 == srgba_pixels@.len(),
            size.0 <= i32::MAX,
            size.1 <= i32::MAX,
        ensures
            final(self).wf(),
            is_next_user_id(old(self)@.textures, id),
            final(self)@ == (PainterView {
                textures: old(self)@.textures.push(
                    TextureSlot {
                        id,
                        state: TextureState {
                            size,
                            pixels: rgba_bytes(srgba_pixels@),
                            texture: None,
                            filtering,
                            dirty: true,
                        },
                    },
                ),
                ..old(self)@
            }),
    {
        let count: usize = self.textures.len();
        let mut number: u64 = 0;
        let mut taken = self.find(TextureId::User(number)).is_some();
        while taken
            invariant
                self.wf(),
                count == self.textures@.len(),
                number <= count,
                self@.textures.len() == self.textures@.len(),
                taken == has_texture(self@.textures, TextureId::User(number)),
                forall|m: u64|
                    m < number ==> #[trigger] has_texture(self@.textures, TextureId::User(m)),
            decreases self.textures@.len() - number,
        {
            proof {
                lemma_user_numbers_fill_slots(self@.textures, number + 1);
            }
            number += 1;
            taken = self.find(TextureId::User(number)).is_some();
        }
        let id = TextureId::User(number);
        let pixels = flatten_pixels(srgba_pixels);
        let texture = UserTexture::new(size, pixels, filtering);
        self.textures.push(TextureEntry { id, texture });
        proof {
            let state = TextureState {
                size,
                pixels: rgba_bytes(srgba_pixels@),
                texture: None,
                filtering,
                dirty: true,
            };
            assert(self@.textures =~= old(self)@.textures.push(TextureSlot { id, state }));
            assert(self@.textures =~= with_texture(old(self)@.textures, id, state));
            theorem_with_texture(old(self)@.textures, id, state);
        }
        id
    }

    /// Replaces the pending pixels of an existing texture and marks it
    /// dirty.
    pub fn update_user_texture_data(&mut self, texture_id: &TextureId, pixels: &[Color32])
        requires
            old(self).wf(),
            has_texture(old(self)@.textures, *texture_id),
        ensures
            final(self).wf(),
            final(self)@ == (PainterView {
                textures: with_texture(
                    old(self)@.textures,
                    *texture_id,
                    texture_of(old(self)@.textures, *texture_id)->0.with_pixels(
                        rgba_bytes(pixels@),
                    ),
                ),
                ..old(self)@
            }),
    {
        match self.find(*texture_id) {
            Some(i) => {
                self.textures[i].texture.pixels = flatten_pixels(pixels);
                self.textures[i].texture.dirty = true;
            },
            None => {},
        }
        assert(self@.textures =~= with_texture(
            old(self)@.textures,
            *texture_id,
            texture_of(old(self)@.textures, *texture_id)->0.with_pixels(rgba_bytes(pixels@)),
        ));
    }

    /// Uploads every texture that has no GPU object or is dirty, in slot
    /// order.
    ///
    /// A texture without a GPU object gets the next unused name of `names`
    /// and is set up with its filter. The pending pixels are sent as the
    /// whole image if they make one; where they do not, as after a patch
    /// with nothing else pending, no image is sent and the texels on the GPU
    /// stay as they are. Afterwards every texture has its GPU object, none
    /// is dirty and nothing is pending. Textures that need no upload are
    /// left alone and issue nothing.
    pub fn upload_user_textures(&mut self, names: Vec<u32>) -> (commands: Vec<GlCommand>)
        requires
            old(self).wf(),
            names@.len() == unallocated(old(self)@.textures),
        ensures
            final(self).wf(),
            final(self)@ == (PainterView {
                textures: after_upload(old(self)@.textures, names@),
                ..old(self)@
            }),
            all_uploaded(final(self)@.textures),
            command_views(commands@) == upload_commands(old(self)@.textures, names@),
    {
        let mut commands: Vec<GlCommand> = Vec::new();
        let mut next: usize = 0;
        let mut i: usize = 0;
        assert(command_views(commands@) =~= Seq::empty());
        while i < self.textures.len()
            invariant
                i <= self.textures@.len(),
                self.wf(),
                self@.objects == old(self)@.objects,
                self@.canvas_width == old(self)@.canvas_width,
                self@.canvas_height == old(self)@.canvas_height,
                self@.textures.len() == old(self)@.textures.len(),
                self@.textures.len() == self.textures@.len(),
                names@.len() == unallocated(old(self)@.textures),
                next == unallocated_before(old(self)@.textures, i as int),
                next <= names@.len(),
                forall|j: int|
                    0 <= j < i ==> (#[trigger] self@.textures[j]) == after_upload(
                        old(self)@.textures,
                        names@,
                    )[j],
                forall|j: int|
                    i <= j < self@.textures.len() ==> (#[trigger] self@.textures[j]) == old(
                        self,
                    )@.textures[j],
                command_views(commands@) == upload_commands_before(
                    old(self)@.textures,
                    names@,
                    i as int,
                ),
            decreases self.textures@.len() - i,
        {
            let ghost before = self@.textures;
            let ghost state = before[i as int].state;
            proof {
                lemma_unallocated_monotone(old(self)@.textures, i as int + 1, before.len() as int);
            }
            let fresh: u32 = if self.textures[i].texture.texture.is_none() {
                let name = names[next];
                next += 1;
                name
            } else {
                0
            };
            let more = self.textures[i].texture.upload(fresh);
            append_commands(&mut commands, more);
            assert(state.upload_commands(fresh) == state.upload_commands(
                fresh_name(old(self)@.textures, names@, i as int),
            ));
            assert(self@.textures =~= before.update(
                i as int,
                after_upload(old(self)@.textures, names@)[i as int],
            ));
            i += 1;
        }
        assert(self@.textures =~= after_upload(old(self)@.textures, names@));
        commands
    }

    /// The commands that draw `mesh` inside `clip_rect`. The texture of the
    /// mesh must be in the store and have its GPU object.
    pub fn paint_mesh(&self, mesh: &Mesh, clip_rect: &PixelRect) -> (commands: Vec<GlCommand>)
        requires
            self.wf(),
            mesh_paintable(self@.textures, *mesh),
            texture_of(self@.textures, mesh.texture_id)->0.texture is Some,
        ensures
            command_views(commands@) == mesh_commands(self@, *mesh, *clip_rect),
    {
        let mut commands: Vec<GlCommand> = Vec::new();
        match self.find(mesh.texture_id) {
            Some(i) => match self.textures[i].texture.texture {
                Some(t) => {
                    commands.push(GlCommand::BindTexture(t));
                },
                None => {},
            },
            None => {},
        }
        let scissor = scissor_rect(self.canvas_width, self.canvas_height, *clip_rect);
        commands.push(GlCommand::Scissor(scissor));

        let indices = mesh.index_stream();
        let index_count = indices.len();
        commands.push(GlCommand::BindVertexArray(self.objects.vertex_array));
        commands.push(GlCommand::BindBuffer(BufferTarget::ElementArray, self.objects.index_buffer));
        commands.push(
            GlCommand::BufferData(BufferTarget::ElementArray, BufferContents::Indices(indices)),
        );

        commands.push(GlCommand::BindBuffer(BufferTarget::Array, self.objects.pos_buffer));
        commands.push(
            GlCommand::BufferData(BufferTarget::Array, BufferContents::Floats(mesh.positions())),
        );
        commands.push(GlCommand::VertexAttribPointer(Attribute::Position));
        commands.push(GlCommand::EnableVertexAttribArray(Attribute::Position));

        commands.push(GlCommand::BindBuffer(BufferTarget::Array, self.objects.tc_buffer));
        commands.push(
            GlCommand::BufferData(BufferTarget::Array, BufferContents::Floats(mesh.tex_coords())),
        );
        commands.push(GlCommand::VertexAttribPointer(Attribute::TexCoord));
        commands.push(GlCommand::EnableVertexAttribArray(Attribute::TexCoord));

        commands.push(GlCommand::BindBuffer(BufferTarget::Array, self.objects.color_buffer));
        commands.push(
            GlCommand::BufferData(BufferTarget::Array, BufferContents::Bytes(mesh.colors())),
        );
        commands.push(GlCommand::VertexAttribPointer(Attribute::Color));
        commands.push(GlCommand::EnableVertexAttribArray(Attribute::Color));

        commands.push(GlCommand::DrawTriangles { index_count: index_count as i32 });
        commands.push(GlCommand::DisableVertexAttribArray(Attribute::Position));
        commands.push(GlCommand::DisableVertexAttribArray(Attribute::TexCoord));
        commands.push(GlCommand::DisableVertexAttribArray(Attribute::Color));
        assert(command_views(commands@) =~= mesh_commands(self@, *mesh, *clip_rect));
        commands
    }

    /// The position of the first primitive of the run that cannot be painted
    /// from the store, if there is one.
    pub fn first_unpaintable(&self, clipped_primitives: &[ClippedPrimitive]) -> (first: Option<
        usize,
    >)
        requires
            self.wf(),
        ensures
            match first {
                None => all_paintable(self@.textures, clipped_primitives@),
                Some(i) => {
                    &&& i < clipped_primitives@.len()
                    &&& paintable_before(self@.textures, clipped_primitives@, i as int)
                    &&& !primitive_paintable(
                        self@.textures,
                        clipped_primitives@[i as int].primitive,
                    )
                },
            },
    {
        let mut i: usize = 0;
        while i < clipped_primitives.len()
            invariant
                i <= clipped_primitives@.len(),
                self.wf(),
                paintable_before(self@.textures, clipped_primitives@, i as int),
            decreases clipped_primitives@.len() - i,
        {
            let ok = match &clipped_primitives[i].primitive {
                Primitive::Mesh(mesh) => mesh.is_drawable() && self.find(mesh.texture_id).is_some(),
                Primitive::Callback => false,
            };
            if !ok {
                return Some(i);
            }
            i += 1;
        }
        None
    }

    /// Tells whether every primitive of the run can be painted from the
    /// store.
    pub fn can_paint(&self, clipped_primitives: &[ClippedPrimitive]) -> (ok: bool)
        requires
            self.wf(),
        ensures
            ok == all_paintable(self@.textures, clipped_primitives@),
    {
        self.first_unpaintable(clipped_primitives).is_none()
    }

    /// A painter that agrees with this one in everything but the pending
    /// pixels, of which it has none.
    fn outline(&self) -> (copy: Painter)
        requires
            self.wf(),
        ensures
            copy.wf(),
            same_outline(copy@.textures, self@.textures),
    {
        let mut textures: Vec<TextureEntry> = Vec::new();
        let mut i: usize = 0;
        while i < self.textures.len()
            invariant
                i <= self.textures@.len(),
                textures@.len() == i,
                forall|j: int|
                    0 <= j < i ==> {
                        &&& (#[trigger] textures@[j]).id == self.textures@[j].id
                        &&& textures@[j].texture.size == self.textures@[j].texture.size
                        &&& textures@[j].texture.texture == self.textures@[j].texture.texture
                        &&& textures@[j].texture.filtering == self.textures@[j].texture.filtering
                        &&& textures@[j].texture.dirty == self.textures@[j].texture.dirty
                        &&& textures@[j].texture.pixels@.len() == 0
                    },
            decreases self.textures@.len() - i,
        {
            let entry = &self.textures[i];
            textures.push(
                TextureEntry {
                    id: entry.id,
                    texture: UserTexture {
                        size: entry.texture.size,
                        pixels: Vec::new(),
                        texture: entry.texture.texture,
                        filtering: entry.texture.filtering,
                        dirty: entry.texture.dirty,
                    },
                },
            );
            i += 1;
        }
        let copy = Painter {
            objects: self.objects,
            canvas_width: self.canvas_width,
            canvas_height: self.canvas_height,
            textures,
        };
        proof {
            assert(same_outline(copy@.textures, self@.textures));
            assert forall|i: int| 0 <= i < copy@.textures.len() implies (
            #[trigger] copy@.textures[i]).state.pixels.len() == 0 by {
                assert(textures@[i].texture.pixels@.len() == 0);
            }
            lemma_outline_wf(self@.textures, copy@.textures);
        }
        copy
    }

    /// Applies `delta` to the texture `tex_id` as [`Painter::set_texture`]
    /// does, but queues no pixels and issues nothing.
    fn set_outline(&mut self, tex_id: TextureId, delta: &ImageDelta)
        requires
            old(self).wf(),
            accepts_delta(old(self)@.textures, tex_id, *delta),
        ensures
            final(self).wf(),
            same_outline(
                final(self)@.textures,
                after_delta(old(self)@.textures, tex_id, *delta),
            ),
    {
        let found = self.find(tex_id);
        match delta.pos {
            Some(_) => match found {
                Some(i) => {
                    self.textures[i].texture.dirty = true;
                },
                None => {},
            },
            None => {
                let texture = UserTexture::new(
                    (delta.image.width, delta.image.height),
                    Vec::new(),
                    delta.filter,
                );
                match found {
                    Some(i) => {
                        self.textures[i].texture = texture;
                    },
                    None => {
                        self.textures.push(TextureEntry { id: tex_id, texture });
                    },
                }
            },
        }
        proof {
            let after = after_delta(old(self)@.textures, tex_id, *delta);
            assert(same_outline(self@.textures, after));
            theorem_delta_keeps_store(old(self)@.textures, tex_id, *delta);
            lemma_outline_wf(after, self@.textures);
        }
    }

    /// Looks at a frame without painting it. Answers how many fresh texture
    /// names [`Painter::paint_and_update_textures`] takes for it and which
    /// patches it skips, or names the first delta or primitive that stands
    /// in the way.
    pub fn plan_frame(
        &self,
        clipped_primitives: &[ClippedPrimitive],
        textures_delta: &TexturesDelta,
    ) -> (plan: Result<FramePlan, FrameFault>)
        requires
            self.wf(),
        ensures
            frame_plan(self@.textures, clipped_primitives@, *textures_delta, plan),
    {
        let mut sketch = self.outline();
        let mut skipped: Vec<usize> = Vec::new();
        let mut i: usize = 0;
        while i < textures_delta.set.len()
            invariant
                i <= textures_delta.set@.len(),
                self.wf(),
                sketch.wf(),
                accepts_deltas_before(self@.textures, textures_delta.set@, i as int),
                store_wf(after_deltas_before(self@.textures, textures_delta.set@, i as int)),
                same_outline(
                    sketch@.textures,
                    after_deltas_before(self@.textures, textures_delta.set@, i as int),
                ),
                skipped@ == skipped_patches_before(
                    self@.textures,
                    textures_delta.set@,
                    i as int,
                ),
            decreases textures_delta.set@.len() - i,
        {
            let ghost reached = after_deltas_before(self@.textures, textures_delta.set@, i as int);
            let ghost id = textures_delta.set@[i as int].0;
            let ghost delta = textures_delta.set@[i as int].1;
            proof {
                lemma_outline_delta(sketch@.textures, reached, id, delta);
                lemma_outline_lookup(sketch@.textures, reached, id);
            }
            if !sketch.accepts(textures_delta.set[i].0, &textures_delta.set[i].1) {
                return Err(FrameFault::Delta(i));
            }
            let ghost found = skipped@;
            if sketch.skips(textures_delta.set[i].0, &textures_delta.set[i].1) {
                skipped.push(i);
            }
            assert(skipped@ =~= found + if skips_delta(reached, id, delta) {
                seq![i]
            } else {
                Seq::empty()
            });
            let ghost sketched = sketch@.textures;
            sketch.set_outline(textures_delta.set[i].0, &textures_delta.set[i].1);
            proof {
                theorem_delta_keeps_store(reached, id, delta);
                lemma_outline_transitive(
                    sketch@.textures,
                    after_delta(sketched, id, delta),
                    after_delta(reached, id, delta),
                );
            }
            i += 1;
        }
        let ghost set = after_deltas(self@.textures, textures_delta.set@);
        proof {
            lemma_outline_paintable(sketch@.textures, set, clipped_primitives@);
            lemma_outline_unallocated(sketch@.textures, set, set.len() as int);
        }
        match sketch.first_unpaintable(clipped_primitives) {
            Some(k) => Err(FrameFault::Primitive(k)),
            None => Ok(FramePlan { names: sketch.unallocated_textures(), skipped }),
        }
    }

    /// Paints the primitives of a frame, in their given order.
    ///
    /// First every texture that needs it is uploaded, with the fresh names
    /// `names`. Then the GPU is set up, each primitive is drawn inside its
    /// scissor box by the commands of [`Painter::paint_mesh`], and the set-up
    /// is undone. A later primitive is drawn after an earlier one, and so
    /// over it.
    pub fn paint_primitives(
        &mut self,
        clipped_primitives: &[ClippedPrimitive],
        names: Vec<u32>,
    ) -> (commands: Vec<GlCommand>)
        requires
            old(self).wf(),
            names@.len() == unallocated(old(self)@.textures),
            all_paintable(old(self)@.textures, clipped_primitives@),
        ensures
            final(self).wf(),
            final(self)@ == (PainterView {
                textures: after_upload(old(self)@.textures, names@),
                ..old(self)@
            }),
            all_uploaded(final(self)@.textures),
            command_views(commands@) == paint_commands(old(self)@, clipped_primitives@, names@),
    {
        let mut commands = self.upload_user_textures(names);

        commands.push(GlCommand::Enable(Capability::FramebufferSrgb));
        commands.push(GlCommand::Enable(Capability::ScissorTest));
        commands.push(GlCommand::Enable(Capability::Blend));
        commands.push(GlCommand::BlendPremultipliedAlpha);
        commands.push(GlCommand::UseProgram(self.objects.program));
        commands.push(GlCommand::ActiveTexture(0));
        commands.push(
            GlCommand::ScreenSize { width: self.canvas_width, height: self.canvas_height },
        );
        commands.push(GlCommand::Sampler(0));
        commands.push(GlCommand::Viewport { width: self.canvas_width, height: self.canvas_height });

        let ghost head = upload_commands(old(self)@.textures, names@) + frame_prologue(old(self)@);
        assert(command_views(commands@) =~= head);
        proof {
            lemma_upload_keeps_ids(old(self)@.textures, names@);
        }

        let mut i: usize = 0;
        while i < clipped_primitives.len()
            invariant
                i <= clipped_primitives@.len(),
                self.wf(),
                all_uploaded(self@.textures),
                all_paintable(self@.textures, clipped_primitives@),
                command_views(commands@) == head + primitives_commands_before(
                    self@,
                    clipped_primitives@,
                    i as int,
                ),
            decreases clipped_primitives@.len() - i,
        {
            match &clipped_primitives[i].primitive {
                Primitive::Mesh(mesh) => {
                    let more = self.paint_mesh(mesh, &clipped_primitives[i].clip_rect);
                    append_commands(&mut commands, more);
                },
                Primitive::Callback => {},
            }
            assert(command_views(commands@) =~= head + primitives_commands_before(
                self@,
                clipped_primitives@,
                i as int + 1,
            ));
            i += 1;
        }

        let ghost body = command_views(commands@);
        commands.push(GlCommand::Disable(Capability::ScissorTest));
        commands.push(GlCommand::Disable(Capability::FramebufferSrgb));
        assert(command_views(commands@) =~= body + frame_epilogue());
        commands
    }

    /// Paints one frame: applies the texture deltas in order, paints the
    /// primitives, then frees the textures that the frame gives up.
    ///
    /// Deltas come first, so that a primitive can use a texture that the
    /// same frame creates; frees come last, so that a primitive can still
    /// use a texture that the same frame gives up. Afterwards every texture
    /// that is left has its GPU object and is clean.
    pub fn paint_and_update_textures(
        &mut self,
        clipped_primitives: &[ClippedPrimitive],
        textures_delta: &TexturesDelta,
        names: Vec<u32>,
    ) -> (commands: Vec<GlCommand>)
        requires
            old(self).wf(),
            frame_paintable(old(self)@, clipped_primitives@, *textures_delta, names@),
        ensures
            final(self).wf(),
            final(self)@ == (PainterView {
                textures: after_frame(old(self)@.textures, *textures_delta, names@),
                ..old(self)@
            }),
            all_uploaded(final(self)@.textures),
            command_views(commands@) == frame_commands(
                old(self)@,
                clipped_primitives@,
                *textures_delta,
                names@,
            ),
    {
        let mut commands: Vec<GlCommand> = Vec::new();
        assert(command_views(commands@) =~= Seq::empty());

        let mut i: usize = 0;
        while i < textures_delta.set.len()
            invariant
                i <= textures_delta.set@.len(),
                self.wf(),
                accepts_deltas(old(self)@.textures, textures_delta.set@),
                self@ == (PainterView {
                    textures: after_deltas_before(
                        old(self)@.textures,
                        textures_delta.set@,
                        i as int,
                    ),
                    ..old(self)@
                }),
                command_views(commands@) == deltas_commands_before(
                    old(self)@.textures,
                    textures_delta.set@,
                    i as int,
                ),
            decreases textures_delta.set@.len() - i,
        {
            proof {
                lemma_accepts_deltas_prefix(
                    old(self)@.textures,
                    textures_delta.set@,
                    i as int + 1,
                    textures_delta.set@.len() as int,
                );
            }
            let more = self.set_texture(textures_delta.set[i].0, &textures_delta.set[i].1);
            append_commands(&mut commands, more);
            i += 1;
        }

        let more = self.paint_primitives(clipped_primitives, names);
        append_commands(&mut commands, more);

        let ghost painted = self@.textures;
        let ghost head = command_views(commands@);
        assert(command_views(commands@) =~= head + frees_commands_before(
            painted,
            textures_delta.free@,
            0,
        ));
        let mut k: usize = 0;
        while k < textures_delta.free.len()
            invariant
                k <= textures_delta.free@.len(),
                self.wf(),
                all_uploaded(self@.textures),
                self@ == (PainterView {
                    textures: after_frees_before(painted, textures_delta.free@, k as int),
                    ..old(self)@
                }),
                command_views(commands@) == head + frees_commands_before(
                    painted,
                    textures_delta.free@,
                    k as int,
                ),
            decreases textures_delta.free@.len() - k,
        {
            proof {
                lemma_free_keeps_uploaded(self@.textures, textures_delta.free@[k as int]);
            }
            let more = self.free_texture(textures_delta.free[k]);
            append_commands(&mut commands, more);
            assert(command_views(commands@) =~= head + frees_commands_before(
                painted,
                textures_delta.free@,
                k as int + 1,
            ));
            k += 1;
        }
        commands
    }
}

} // verus!
