//! The mathematical model of the texture store and of a frame.
//!
//! A store is a sequence of slots, oldest first, each holding one texture
//! under its identifier. The functions here say what each operation of
//! [`crate::painter::Painter`] makes of a store and which commands it
//! issues; the contracts of the painter are stated with them.

use vstd::prelude::*;
use crate::color::rgba_bytes;
use crate::command::{
    Attribute,
    BufferContentsView,
    BufferTarget,
    Capability,
    GlCommandView,
    TextureParameter,
};
use crate::mesh::{
    color_stream,
    narrowed_indices,
    position_stream,
    tex_coord_stream,
    ClippedPrimitive,
    Mesh,
    Primitive,
};
use crate::painter::{FrameFault, FramePlan, GlObjects};
use crate::scissor::{scissor_of, PixelRect};
use crate::texture::{ImageDelta, TextureFilter, TextureId, TexturesDelta};

verus! {

/// The mathematical value of a [`crate::painter::UserTexture`].
pub struct TextureState {
    /// Width and height in texels.
    pub size: (usize, usize),
    /// RGBA8 bytes that wait to be uploaded.
    pub pixels: Seq<u8>,
    /// The name of the GPU texture object, once there is one.
    pub texture: Option<u32>,
    pub filtering: TextureFilter,
    /// The texture has changed since it was last uploaded.
    pub dirty: bool,
}

impl TextureState {
    /// Both dimensions fit the signed 32-bit sizes of OpenGL, a texture
    /// without a GPU object is dirty, and a clean texture has no pixels
    /// pending.
    pub open spec fn wf(self) -> bool {
        &&& self.size.0 <= i32::MAX
        &&& self.size.1 <= i32::MAX
        &&& self.texture is None ==> self.dirty
        &&& !self.dirty ==> self.pixels.len() == 0
    }

    /// The pending pixels make a whole image: there are at least four bytes
    /// for each texel.
    pub open spec fn has_whole_image(self) -> bool {
        self.pixels.len() >= 4 * self.size.0 * self.size.1
    }

    /// The next upload has to send this texture.
    pub open spec fn needs_upload(self) -> bool {
        self.texture is None || self.dirty
    }

    /// The region of `width` by `height` texels at `(x, y)` lies inside the
    /// texture.
    pub open spec fn contains_region(self, x: int, y: int, width: int, height: int) -> bool {
        x + width <= self.size.0 && y + height <= self.size.1
    }

    /// The state after a region has been overwritten on the GPU.
    pub open spec fn patched(self) -> TextureState {
        TextureState { dirty: true, ..self }
    }

    /// The state after new pixels have been queued.
    pub open spec fn with_pixels(self, pixels: Seq<u8>) -> TextureState {
        TextureState { pixels, dirty: true, ..self }
    }

    /// The state after an upload, where `fresh` is the name that the texture
    /// gets if it had no GPU object.
    pub open spec fn uploaded(self, fresh: u32) -> TextureState {
        TextureState {
            pixels: Seq::empty(),
            texture: Some(
                match self.texture {
                    Some(t) => t,
                    None => fresh,
                },
            ),
            dirty: false,
            ..self
        }
    }

    /// The commands that overwrite a region of the texture on the GPU.
    pub open spec fn patch_commands(
        self,
        x: i32,
        y: i32,
        width: i32,
        height: i32,
        bytes: Seq<u8>,
    ) -> Seq<GlCommandView> {
        seq![
            GlCommandView::BindTexture(self.texture->0),
            GlCommandView::UnpackAlignment(1),
            GlCommandView::TexParameter(TextureParameter::SwizzleAlphaFromRed),
            GlCommandView::TexSubImage { x, y, width, height, pixels: bytes },
        ]
    }

    /// The commands that release the GPU object, if there is one.
    pub open spec fn delete_commands(self) -> Seq<GlCommandView> {
        match self.texture {
            Some(t) => seq![GlCommandView::DeleteTexture(t)],
            None => Seq::empty(),
        }
    }

    /// The commands of an upload, where `fresh` is the name that the texture
    /// gets if it had no GPU object.
    ///
    /// A new GPU object is bound and set up to clamp at its edges and to use
    /// the texture's filter both ways. The pending pixels are sent as the
    /// whole image only if they make one. Where they do not, as after a
    /// patch with nothing else pending, no image is sent and the texels on
    /// the GPU stay as they are; a texture that has its GPU object then
    /// issues no command at all.
    pub open spec fn upload_commands(self, fresh: u32) -> Seq<GlCommandView> {
        let image = if self.has_whole_image() {
            seq![
                GlCommandView::TexImage {
                    width: self.size.0 as i32,
                    height: self.size.1 as i32,
                    pixels: self.pixels,
                },
            ]
        } else {
            Seq::empty()
        };
        if !self.needs_upload() {
            Seq::empty()
        } else {
            match self.texture {
                Some(t) => if self.has_whole_image() {
                    seq![GlCommandView::BindTexture(t)] + image
                } else {
                    Seq::empty()
                },
                None => seq![
                    GlCommandView::BindTexture(fresh),
                    GlCommandView::TexParameter(TextureParameter::WrapSClampToEdge),
                    GlCommandView::TexParameter(TextureParameter::WrapTClampToEdge),
                    GlCommandView::TexParameter(TextureParameter::MinFilter(self.filtering)),
                    GlCommandView::TexParameter(TextureParameter::MagFilter(self.filtering)),
                ] + image,
            }
        }
    }
}

/// A texture of the store under its identifier, as a mathematical value.
pub struct TextureSlot {
    pub id: TextureId,
    pub state: TextureState,
}

/// Some slot of `slots` holds the texture `id`.
pub open spec fn has_texture(slots: Seq<TextureSlot>, id: TextureId) -> bool {
    exists|i: int| 0 <= i < slots.len() && (#[trigger] slots[i]).id == id
}

/// The position of the slot that holds the texture `id`, if there is one.
pub open spec fn slot_index(slots: Seq<TextureSlot>, id: TextureId) -> int {
    choose|i: int| 0 <= i < slots.len() && (#[trigger] slots[i]).id == id
}

/// The texture stored under `id`.
pub open spec fn texture_of(slots: Seq<TextureSlot>, id: TextureId) -> Option<TextureState> {
    if has_texture(slots, id) {
        Some(slots[slot_index(slots, id)].state)
    } else {
        None
    }
}

/// No identifier occurs in two slots.
pub open spec fn distinct_ids(slots: Seq<TextureSlot>) -> bool {
    forall|i: int, j: int|
        0 <= i < j < slots.len() ==> (#[trigger] slots[i]).id != (#[trigger] slots[j]).id
}

/// The invariant of a texture store: identifiers are distinct and every
/// texture is well formed.
pub open spec fn store_wf(slots: Seq<TextureSlot>) -> bool {
    &&& distinct_ids(slots)
    &&& forall|i: int| 0 <= i < slots.len() ==> (#[trigger] slots[i]).state.wf()
}

/// The store with `state` under `id`: in the slot that held `id`, or else
/// in a new last slot.
pub open spec fn with_texture(
    slots: Seq<TextureSlot>,
    id: TextureId,
    state: TextureState,
) -> Seq<TextureSlot> {
    if has_texture(slots, id) {
        slots.update(slot_index(slots, id), TextureSlot { id, state })
    } else {
        slots.push(TextureSlot { id, state })
    }
}

/// The store without the texture `id`; the other slots keep their order.
pub open spec fn without_texture(slots: Seq<TextureSlot>, id: TextureId) -> Seq<TextureSlot> {
    if has_texture(slots, id) {
        slots.remove(slot_index(slots, id))
    } else {
        slots
    }
}

/// `id` is the identifier that the next user texture gets: the user
/// identifier with the least number that the store does not hold.
pub open spec fn is_next_user_id(slots: Seq<TextureSlot>, id: TextureId) -> bool {
    match id {
        TextureId::User(n) => {
            &&& !has_texture(slots, id)
            &&& forall|m: u64| m < n ==> #[trigger] has_texture(slots, TextureId::User(m))
        },
        TextureId::Managed(_) => false,
    }
}

/// The commands that release the GPU object of the texture `id`, if the
/// store holds that texture and it has one.
pub open spec fn release_commands(slots: Seq<TextureSlot>, id: TextureId) -> Seq<GlCommandView> {
    match texture_of(slots, id) {
        Some(state) => state.delete_commands(),
        None => Seq::empty(),
    }
}

/// The texture that a whole-image delta creates.
pub open spec fn created_by(delta: ImageDelta) -> TextureState {
    TextureState {
        size: (delta.image.width, delta.image.height),
        pixels: rgba_bytes(delta.image.pixels@),
        texture: None,
        filtering: delta.filter,
        dirty: true,
    }
}

/// The store can take `delta` for the texture `id`.
///
/// A whole image must hold one pixel per texel and fit the signed 32-bit
/// sizes of OpenGL. A patch for a texture that the store holds must hold one
/// pixel per texel, the texture must have its GPU object, and the patch must
/// lie inside the texture. A patch for an unknown texture is always taken:
/// it changes nothing.
pub open spec fn accepts_delta(slots: Seq<TextureSlot>, id: TextureId, delta: ImageDelta) -> bool {
    match delta.pos {
        None => {
            &&& delta.image.consistent()
            &&& delta.image.width <= i32::MAX
            &&& delta.image.height <= i32::MAX
        },
        Some(pos) => match texture_of(slots, id) {
            None => true,
            Some(state) => {
                &&& delta.image.consistent()
                &&& state.texture is Some
                &&& state.contains_region(
                    pos.x as int,
                    pos.y as int,
                    delta.image.width as int,
                    delta.image.height as int,
                )
            },
        },
    }
}

/// `delta` is a patch for a texture that the store does not hold: applying
/// it changes nothing and issues nothing.
pub open spec fn skips_delta(slots: Seq<TextureSlot>, id: TextureId, delta: ImageDelta) -> bool {
    delta.pos is Some && !has_texture(slots, id)
}

/// The store after `delta` has been applied to the texture `id`.
pub open spec fn after_delta(
    slots: Seq<TextureSlot>,
    id: TextureId,
    delta: ImageDelta,
) -> Seq<TextureSlot> {
    match delta.pos {
        None => with_texture(slots, id, created_by(delta)),
        Some(_) => match texture_of(slots, id) {
            None => slots,
            Some(state) => with_texture(slots, id, state.patched()),
        },
    }
}

/// The commands that applying `delta` to the texture `id` issues: a patch
/// is written to the GPU at once; a whole image only releases the GPU object
/// of the texture it replaces.
pub open spec fn delta_commands(
    slots: Seq<TextureSlot>,
    id: TextureId,
    delta: ImageDelta,
) -> Seq<GlCommandView> {
    match delta.pos {
        None => release_commands(slots, id),
        Some(pos) => match texture_of(slots, id) {
            None => Seq::empty(),
            Some(state) => state.patch_commands(
                pos.x as i32,
                pos.y as i32,
                delta.image.width as i32,
                delta.image.height as i32,
                rgba_bytes(delta.image.pixels@),
            ),
        },
    }
}

/// The number of textures without a GPU object among the first `n` slots.
pub open spec fn unallocated_before(slots: Seq<TextureSlot>, n: int) -> nat
    decreases n,
{
    if n <= 0 {
        0
    } else {
        unallocated_before(slots, n - 1) + if slots[n - 1].state.texture is None {
            1nat
        } else {
            0nat
        }
    }
}

/// The number of textures without a GPU object: the number of fresh names
/// that an upload takes.
pub open spec fn unallocated(slots: Seq<TextureSlot>) -> nat {
    unallocated_before(slots, slots.len() as int)
}

/// The fresh name that the upload gives to the texture in slot `i` if it has
/// no GPU object: names are handed out in slot order.
pub open spec fn fresh_name(slots: Seq<TextureSlot>, names: Seq<u32>, i: int) -> u32 {
    names[unallocated_before(slots, i) as int]
}

/// The store after an upload with the fresh names `names`.
pub open spec fn after_upload(slots: Seq<TextureSlot>, names: Seq<u32>) -> Seq<TextureSlot> {
    Seq::new(
        slots.len(),
        |i: int|
            TextureSlot {
                id: slots[i].id,
                state: if slots[i].state.needs_upload() {
                    slots[i].state.uploaded(fresh_name(slots, names, i))
                } else {
                    slots[i].state
                },
            },
    )
}

/// The commands that upload the first `n` slots, in slot order.
pub open spec fn upload_commands_before(
    slots: Seq<TextureSlot>,
    names: Seq<u32>,
    n: int,
) -> Seq<GlCommandView>
    decreases n,
{
    if n <= 0 {
        Seq::empty()
    } else {
        upload_commands_before(slots, names, n - 1) + slots[n - 1].state.upload_commands(
            fresh_name(slots, names, n - 1),
        )
    }
}

/// The commands of an upload with the fresh names `names`.
pub open spec fn upload_commands(slots: Seq<TextureSlot>, names: Seq<u32>) -> Seq<GlCommandView> {
    upload_commands_before(slots, names, slots.len() as int)
}

/// The texture has its GPU object, is clean and has nothing pending.
pub open spec fn is_uploaded(state: TextureState) -> bool {
    &&& state.texture is Some
    &&& !state.dirty
    &&& state.pixels.len() == 0
}

/// Every texture has its GPU object, none is dirty and nothing is pending.
pub open spec fn all_uploaded(slots: Seq<TextureSlot>) -> bool {
    forall|i: int| 0 <= i < slots.len() ==> is_uploaded((#[trigger] slots[i]).state)
}

/// The mesh can be painted from the store: it is drawable and its texture
/// is there.
pub open spec fn mesh_paintable(slots: Seq<TextureSlot>, mesh: Mesh) -> bool {
    mesh.drawable() && has_texture(slots, mesh.texture_id)
}

/// The primitive can be painted from the store: it is a mesh that can.
pub open spec fn primitive_paintable(slots: Seq<TextureSlot>, primitive: Primitive) -> bool {
    match primitive {
        Primitive::Mesh(mesh) => mesh_paintable(slots, mesh),
        Primitive::Callback => false,
    }
}

/// Every primitive of the run can be painted from the store.
pub open spec fn all_paintable(slots: Seq<TextureSlot>, primitives: Seq<ClippedPrimitive>) -> bool {
    forall|i: int|
        0 <= i < primitives.len() ==> primitive_paintable(
            slots,
            (#[trigger] primitives[i]).primitive,
        )
}

/// The commands that draw `mesh` inside `clip`: bind its texture, set the
/// scissor box, stream the indices and the three vertex attributes, and draw
/// the triangles in one call.
pub open spec fn mesh_commands(p: PainterView, mesh: Mesh, clip: PixelRect) -> Seq<GlCommandView> {
    seq![
        GlCommandView::BindTexture(texture_of(p.textures, mesh.texture_id)->0.texture->0),
        GlCommandView::Scissor(scissor_of(p.canvas_width, p.canvas_height, clip)),
        GlCommandView::BindVertexArray(p.objects.vertex_array),
        GlCommandView::BindBuffer(BufferTarget::ElementArray, p.objects.index_buffer),
        GlCommandView::BufferData(
            BufferTarget::ElementArray,
            BufferContentsView::Indices(narrowed_indices(mesh.indices@)),
        ),
        GlCommandView::BindBuffer(BufferTarget::Array, p.objects.pos_buffer),
        GlCommandView::BufferData(
            BufferTarget::Array,
            BufferContentsView::Floats(position_stream(mesh.vertices@)),
        ),
        GlCommandView::VertexAttribPointer(Attribute::Position),
        GlCommandView::EnableVertexAttribArray(Attribute::Position),
        GlCommandView::BindBuffer(BufferTarget::Array, p.objects.tc_buffer),
        GlCommandView::BufferData(
            BufferTarget::Array,
            BufferContentsView::Floats(tex_coord_stream(mesh.vertices@)),
        ),
        GlCommandView::VertexAttribPointer(Attribute::TexCoord),
        GlCommandView::EnableVertexAttribArray(Attribute::TexCoord),
        GlCommandView::BindBuffer(BufferTarget::Array, p.objects.color_buffer),
        GlCommandView::BufferData(
            BufferTarget::Array,
            BufferContentsView::Bytes(color_stream(mesh.vertices@)),
        ),
        GlCommandView::VertexAttribPointer(Attribute::Color),
        GlCommandView::EnableVertexAttribArray(Attribute::Color),
        GlCommandView::DrawTriangles { index_count: mesh.indices@.len() as i32 },
        GlCommandView::DisableVertexAttribArray(Attribute::Position),
        GlCommandView::DisableVertexAttribArray(Attribute::TexCoord),
        GlCommandView::DisableVertexAttribArray(Attribute::Color),
    ]
}

/// The commands that draw one primitive; a callback draws nothing.
pub open spec fn primitive_commands(p: PainterView, primitive: ClippedPrimitive) -> Seq<
    GlCommandView,
> {
    match primitive.primitive {
        Primitive::Mesh(mesh) => mesh_commands(p, mesh, primitive.clip_rect),
        Primitive::Callback => Seq::empty(),
    }
}

/// The commands that draw the first `n` primitives, in their given order.
pub open spec fn primitives_commands_before(
    p: PainterView,
    primitives: Seq<ClippedPrimitive>,
    n: int,
) -> Seq<GlCommandView>
    decreases n,
{
    if n <= 0 {
        Seq::empty()
    } else {
        primitives_commands_before(p, primitives, n - 1) + primitive_commands(p, primitives[n - 1])
    }
}

/// The commands that draw all the primitives, in their given order.
pub open spec fn primitives_commands(p: PainterView, primitives: Seq<ClippedPrimitive>) -> Seq<
    GlCommandView,
> {
    primitives_commands_before(p, primitives, primitives.len() as int)
}

/// The commands that set the GPU up for the primitives of a frame: sRGB
/// framebuffer, scissor test, blending for premultiplied alpha, the shader
/// program with its two uniforms, and the viewport.
pub open spec fn frame_prologue(p: PainterView) -> Seq<GlCommandView> {
    seq![
        GlCommandView::Enable(Capability::FramebufferSrgb),
        GlCommandView::Enable(Capability::ScissorTest),
        GlCommandView::Enable(Capability::Blend),
        GlCommandView::BlendPremultipliedAlpha,
        GlCommandView::UseProgram(p.objects.program),
        GlCommandView::ActiveTexture(0),
        GlCommandView::ScreenSize { width: p.canvas_width, height: p.canvas_height },
        GlCommandView::Sampler(0),
        GlCommandView::Viewport { width: p.canvas_width, height: p.canvas_height },
    ]
}

/// The commands that follow the primitives of a frame.
pub open spec fn frame_epilogue() -> Seq<GlCommandView> {
    seq![
        GlCommandView::Disable(Capability::ScissorTest),
        GlCommandView::Disable(Capability::FramebufferSrgb),
    ]
}

/// The commands of painting `primitives`: the upload, then the set-up, the
/// primitives in order, and the tear-down.
pub open spec fn paint_commands(
    p: PainterView,
    primitives: Seq<ClippedPrimitive>,
    names: Seq<u32>,
) -> Seq<GlCommandView> {
    let uploaded = PainterView { textures: after_upload(p.textures, names), ..p };
    upload_commands(p.textures, names) + frame_prologue(p) + primitives_commands(
        uploaded,
        primitives,
    ) + frame_epilogue()
}

/// The store after the first `n` deltas of `set` have been applied in order.
pub open spec fn after_deltas_before(
    slots: Seq<TextureSlot>,
    set: Seq<(TextureId, ImageDelta)>,
    n: int,
) -> Seq<TextureSlot>
    decreases n,
{
    if n <= 0 {
        slots
    } else {
        after_delta(after_deltas_before(slots, set, n - 1), set[n - 1].0, set[n - 1].1)
    }
}

/// The store after all the deltas of `set` have been applied in order.
pub open spec fn after_deltas(slots: Seq<TextureSlot>, set: Seq<(TextureId, ImageDelta)>) -> Seq<
    TextureSlot,
> {
    after_deltas_before(slots, set, set.len() as int)
}

/// The store can take the first `n` deltas of `set` one after the other.
pub open spec fn accepts_deltas_before(
    slots: Seq<TextureSlot>,
    set: Seq<(TextureId, ImageDelta)>,
    n: int,
) -> bool
    decreases n,
{
    n <= 0 || {
        &&& accepts_deltas_before(slots, set, n - 1)
        &&& accepts_delta(after_deltas_before(slots, set, n - 1), set[n - 1].0, set[n - 1].1)
    }
}

/// The store can take all the deltas of `set` one after the other.
pub open spec fn accepts_deltas(
    slots: Seq<TextureSlot>,
    set: Seq<(TextureId, ImageDelta)>,
) -> bool {
    accepts_deltas_before(slots, set, set.len() as int)
}

/// The commands that applying the first `n` deltas of `set` issues.
pub open spec fn deltas_commands_before(
    slots: Seq<TextureSlot>,
    set: Seq<(TextureId, ImageDelta)>,
    n: int,
) -> Seq<GlCommandView>
    decreases n,
{
    if n <= 0 {
        Seq::empty()
    } else {
        deltas_commands_before(slots, set, n - 1) + delta_commands(
            after_deltas_before(slots, set, n - 1),
            set[n - 1].0,
            set[n - 1].1,
        )
    }
}

/// The commands that applying all the deltas of `set` issues.
pub open spec fn deltas_commands(slots: Seq<TextureSlot>, set: Seq<(TextureId, ImageDelta)>) -> Seq<
    GlCommandView,
> {
    deltas_commands_before(slots, set, set.len() as int)
}

/// The store after the first `n` textures of `free` have been freed.
pub open spec fn after_frees_before(slots: Seq<TextureSlot>, free: Seq<TextureId>, n: int) -> Seq<
    TextureSlot,
>
    decreases n,
{
    if n <= 0 {
        slots
    } else {
        without_texture(after_frees_before(slots, free, n - 1), free[n - 1])
    }
}

/// The store after all the textures of `free` have been freed.
pub open spec fn after_frees(slots: Seq<TextureSlot>, free: Seq<TextureId>) -> Seq<TextureSlot> {
    after_frees_before(slots, free, free.len() as int)
}

/// The commands that freeing the first `n` textures of `free` issues.
pub open spec fn frees_commands_before(
    slots: Seq<TextureSlot>,
    free: Seq<TextureId>,
    n: int,
) -> Seq<GlCommandView>
    decreases n,
{
    if n <= 0 {
        Seq::empty()
    } else {
        frees_commands_before(slots, free, n - 1) + release_commands(
            after_frees_before(slots, free, n - 1),
            free[n - 1],
        )
    }
}

/// The commands that freeing all the textures of `free` issues.
pub open spec fn frees_commands(slots: Seq<TextureSlot>, free: Seq<TextureId>) -> Seq<
    GlCommandView,
> {
    frees_commands_before(slots, free, free.len() as int)
}

/// The positions, among the first `n` deltas of `set`, of the patches that
/// are skipped because their texture is not there when their turn comes.
pub open spec fn skipped_patches_before(
    slots: Seq<TextureSlot>,
    set: Seq<(TextureId, ImageDelta)>,
    n: int,
) -> Seq<usize>
    decreases n,
{
    if n <= 0 {
        Seq::empty()
    } else {
        skipped_patches_before(slots, set, n - 1) + if skips_delta(
            after_deltas_before(slots, set, n - 1),
            set[n - 1].0,
            set[n - 1].1,
        ) {
            seq![(n - 1) as usize]
        } else {
            Seq::empty()
        }
    }
}

/// The positions in `set` of the patches that are skipped, in order.
pub open spec fn skipped_patches(slots: Seq<TextureSlot>, set: Seq<(TextureId, ImageDelta)>) -> Seq<
    usize,
> {
    skipped_patches_before(slots, set, set.len() as int)
}

/// A frame can be painted: the store takes the deltas, `names` holds one
/// fresh name for each texture that then lacks a GPU object, and every
/// primitive can be painted from the store as the deltas leave it.
pub open spec fn frame_paintable(
    p: PainterView,
    primitives: Seq<ClippedPrimitive>,
    delta: TexturesDelta,
    names: Seq<u32>,
) -> bool {
    let set = after_deltas(p.textures, delta.set@);
    &&& accepts_deltas(p.textures, delta.set@)
    &&& names.len() == unallocated(set)
    &&& all_paintable(set, primitives)
}

/// The store after a frame: deltas applied, textures uploaded, freed
/// textures removed.
pub open spec fn after_frame(slots: Seq<TextureSlot>, delta: TexturesDelta, names: Seq<u32>) -> Seq<
    TextureSlot,
> {
    after_frees(after_upload(after_deltas(slots, delta.set@), names), delta.free@)
}

/// The commands of a frame: those of the deltas, then those of painting,
/// then those of the frees.
pub open spec fn frame_commands(
    p: PainterView,
    primitives: Seq<ClippedPrimitive>,
    delta: TexturesDelta,
    names: Seq<u32>,
) -> Seq<GlCommandView> {
    let set = after_deltas(p.textures, delta.set@);
    deltas_commands(p.textures, delta.set@) + paint_commands(
        PainterView { textures: set, ..p },
        primitives,
        names,
    ) + frees_commands(after_upload(set, names), delta.free@)
}

/// Two slots agree in everything but the pending pixels.
pub open spec fn same_slot_outline(a: TextureSlot, b: TextureSlot) -> bool {
    &&& a.id == b.id
    &&& a.state.size == b.state.size
    &&& a.state.texture == b.state.texture
    &&& a.state.filtering == b.state.filtering
    &&& a.state.dirty == b.state.dirty
}

/// Two stores agree, slot by slot, in everything but the pending pixels.
pub open spec fn same_outline(a: Seq<TextureSlot>, b: Seq<TextureSlot>) -> bool {
    &&& a.len() == b.len()
    &&& forall|i: int|
        #![trigger a[i]]
        #![trigger b[i]]
        0 <= i < a.len() ==> same_slot_outline(a[i], b[i])
}

/// The first `n` primitives of the run can be painted from the store.
pub open spec fn paintable_before(
    slots: Seq<TextureSlot>,
    primitives: Seq<ClippedPrimitive>,
    n: int,
) -> bool {
    forall|i: int|
        0 <= i < n && i < primitives.len() ==> primitive_paintable(
            slots,
            (#[trigger] primitives[i]).primitive,
        )
}

/// What [`crate::painter::Painter::plan_frame`] answers for a frame: the
/// number of fresh texture names that painting it takes and the patches that
/// it skips, or the first thing that stands in the way.
pub open spec fn frame_plan(
    slots: Seq<TextureSlot>,
    primitives: Seq<ClippedPrimitive>,
    delta: TexturesDelta,
    plan: Result<FramePlan, FrameFault>,
) -> bool {
    let set = after_deltas(slots, delta.set@);
    match plan {
        Ok(plan) => {
            &&& accepts_deltas(slots, delta.set@)
            &&& all_paintable(set, primitives)
            &&& plan.names == unallocated(set)
            &&& plan.skipped@ == skipped_patches(slots, delta.set@)
        },
        Err(FrameFault::Delta(i)) => {
            &&& i < delta.set@.len()
            &&& accepts_deltas_before(slots, delta.set@, i as int)
            &&& !accepts_delta(
                after_deltas_before(slots, delta.set@, i as int),
                delta.set@[i as int].0,
                delta.set@[i as int].1,
            )
        },
        Err(FrameFault::Primitive(i)) => {
            &&& i < primitives.len()
            &&& accepts_deltas(slots, delta.set@)
            &&& paintable_before(set, primitives, i as int)
            &&& !primitive_paintable(set, primitives[i as int].primitive)
        },
    }
}

/// The mathematical value of a [`crate::painter::Painter`].
pub struct PainterView {
    pub objects: GlObjects,
    pub canvas_width: u32,
    pub canvas_height: u32,
    /// The textures, oldest slot first.
    pub textures: Seq<TextureSlot>,
}

} // verus!
