use egui_glfw_gl::command::{Attribute, BufferContents, BufferTarget, Capability, TextureParameter};
use egui_glfw_gl::Point;
use egui_glfw_gl::painter::{FrameFault, FramePlan};
use egui_glfw_gl::texture::TexelPos;
use egui_glfw_gl::{
    ClippedPrimitive, Color32, ColorImage, GlCommand, GlObjects, ImageDelta, Mesh, Painter,
    PixelRect, Primitive, Scissor, TextureFilter, TextureId, TexturesDelta, Vertex,
};

fn new_painter() -> Painter {
    Painter::new(
        GlObjects {
            program: 1,
            vertex_array: 2,
            index_buffer: 3,
            pos_buffer: 4,
            tc_buffer: 5,
            color_buffer: 6,
        },
        800,
        600,
    )
}

fn white() -> Color32 {
    Color32 { r: 255, g: 255, b: 255, a: 255 }
}

fn whole(width: usize, height: usize) -> ImageDelta {
    ImageDelta {
        image: ColorImage { width, height, pixels: vec![white(); width * height] },
        filter: TextureFilter::Linear,
        pos: None,
    }
}

fn part(x: usize, y: usize, width: usize, height: usize) -> ImageDelta {
    ImageDelta {
        image: ColorImage { width, height, pixels: vec![white(); width * height] },
        filter: TextureFilter::Linear,
        pos: Some(TexelPos { x, y }),
    }
}

fn corner(x: f32, y: f32, shade: u8) -> Vertex {
    Vertex {
        pos: Point { x: x.to_bits(), y: y.to_bits() },
        uv: Point { x: 0.5f32.to_bits(), y: 0.25f32.to_bits() },
        color: Color32 { r: shade, g: shade, b: shade, a: 255 },
    }
}

fn tri(texture_id: TextureId, shade: u8) -> Mesh {
    Mesh {
        indices: vec![0, 1, 2],
        vertices: vec![corner(0.0, 0.0, shade), corner(8.0, 0.0, shade), corner(0.0, 8.0, shade)],
        texture_id,
    }
}

fn clipped(mesh: Mesh) -> ClippedPrimitive {
    ClippedPrimitive {
        clip_rect: PixelRect { min_x: 10, min_y: 20, max_x: 700, max_y: 580 },
        primitive: Primitive::Mesh(mesh),
    }
}

fn callback() -> ClippedPrimitive {
    ClippedPrimitive {
        clip_rect: PixelRect { min_x: 0, min_y: 0, max_x: 1, max_y: 1 },
        primitive: Primitive::Callback,
    }
}

fn takes(names: usize) -> Result<FramePlan, FrameFault> {
    Ok(FramePlan { names, skipped: vec![] })
}

fn mesh_commands(texture: u32, scissor: Scissor, mesh: &Mesh) -> Vec<GlCommand> {
    vec![
        GlCommand::BindTexture(texture),
        GlCommand::Scissor(scissor),
        GlCommand::BindVertexArray(2),
        GlCommand::BindBuffer(BufferTarget::ElementArray, 3),
        GlCommand::BufferData(
            BufferTarget::ElementArray,
            BufferContents::Indices(mesh.indices.iter().map(|i| *i as u16).collect()),
        ),
        GlCommand::BindBuffer(BufferTarget::Array, 4),
        GlCommand::BufferData(BufferTarget::Array, BufferContents::Floats(mesh.positions())),
        GlCommand::VertexAttribPointer(Attribute::Position),
        GlCommand::EnableVertexAttribArray(Attribute::Position),
        GlCommand::BindBuffer(BufferTarget::Array, 5),
        GlCommand::BufferData(BufferTarget::Array, BufferContents::Floats(mesh.tex_coords())),
        GlCommand::VertexAttribPointer(Attribute::TexCoord),
        GlCommand::EnableVertexAttribArray(Attribute::TexCoord),
        GlCommand::BindBuffer(BufferTarget::Array, 6),
        GlCommand::BufferData(BufferTarget::Array, BufferContents::Bytes(mesh.colors())),
        GlCommand::VertexAttribPointer(Attribute::Color),
        GlCommand::EnableVertexAttribArray(Attribute::Color),
        GlCommand::DrawTriangles { index_count: mesh.indices.len() as i32 },
        GlCommand::DisableVertexAttribArray(Attribute::Position),
        GlCommand::DisableVertexAttribArray(Attribute::TexCoord),
        GlCommand::DisableVertexAttribArray(Attribute::Color),
    ]
}

fn prologue() -> Vec<GlCommand> {
    vec![
        GlCommand::Enable(Capability::FramebufferSrgb),
        GlCommand::Enable(Capability::ScissorTest),
        GlCommand::Enable(Capability::Blend),
        GlCommand::BlendPremultipliedAlpha,
        GlCommand::UseProgram(1),
        GlCommand::ActiveTexture(0),
        GlCommand::ScreenSize { width: 800, height: 600 },
        GlCommand::Sampler(0),
        GlCommand::Viewport { width: 800, height: 600 },
    ]
}

fn epilogue() -> Vec<GlCommand> {
    vec![
        GlCommand::Disable(Capability::ScissorTest),
        GlCommand::Disable(Capability::FramebufferSrgb),
    ]
}

fn upload_commands(name: u32, width: i32, height: i32) -> Vec<GlCommand> {
    vec![
        GlCommand::BindTexture(name),
        GlCommand::TexParameter(TextureParameter::WrapSClampToEdge),
        GlCommand::TexParameter(TextureParameter::WrapTClampToEdge),
        GlCommand::TexParameter(TextureParameter::MinFilter(TextureFilter::Linear)),
        GlCommand::TexParameter(TextureParameter::MagFilter(TextureFilter::Linear)),
        GlCommand::TexImage {
            width,
            height,
            pixels: vec![255; (width * height * 4) as usize],
        },
    ]
}

const A: TextureId = TextureId::Managed(0);
const B: TextureId = TextureId::User(7);

const BOX: Scissor = Scissor { x: 10, y: 20, width: 690, height: 560 };

#[test]
fn paint_mesh_binds_clips_streams_and_draws() {
    let mut p = new_painter();
    p.set_texture(A, &whole(1, 1));
    p.upload_user_textures(vec![90]);
    let mesh = tri(A, 10);
    let clip = PixelRect { min_x: 10, min_y: 20, max_x: 700, max_y: 580 };
    let commands = p.paint_mesh(&mesh, &clip);
    assert_eq!(commands.len(), 21);
    assert_eq!(commands[0], GlCommand::BindTexture(90));
    assert_eq!(commands[1], GlCommand::Scissor(BOX));
    assert_eq!(
        commands[4],
        GlCommand::BufferData(BufferTarget::ElementArray, BufferContents::Indices(vec![0, 1, 2]))
    );
    assert_eq!(
        commands[6],
        GlCommand::BufferData(
            BufferTarget::Array,
            BufferContents::Floats(vec![
                0.0f32.to_bits(),
                0.0f32.to_bits(),
                8.0f32.to_bits(),
                0.0f32.to_bits(),
                0.0f32.to_bits(),
                8.0f32.to_bits(),
            ])
        )
    );
    assert_eq!(
        commands[10],
        GlCommand::BufferData(
            BufferTarget::Array,
            BufferContents::Floats(vec![
                0.5f32.to_bits(),
                0.25f32.to_bits(),
                0.5f32.to_bits(),
                0.25f32.to_bits(),
                0.5f32.to_bits(),
                0.25f32.to_bits(),
            ])
        )
    );
    assert_eq!(
        commands[14],
        GlCommand::BufferData(
            BufferTarget::Array,
            BufferContents::Bytes(vec![10, 10, 10, 255, 10, 10, 10, 255, 10, 10, 10, 255])
        )
    );
    assert_eq!(commands[17], GlCommand::DrawTriangles { index_count: 3 });
    assert_eq!(commands, mesh_commands(90, BOX, &mesh));
}

#[test]
fn paint_mesh_clamps_the_scissor_to_the_canvas() {
    let mut p = new_painter();
    p.set_texture(A, &whole(1, 1));
    p.upload_user_textures(vec![90]);
    let clip = PixelRect { min_x: -5, min_y: 20, max_x: 900, max_y: 700 };
    let commands = p.paint_mesh(&tri(A, 1), &clip);
    assert_eq!(
        commands[1],
        GlCommand::Scissor(Scissor { x: 0, y: 0, width: 800, height: 580 })
    );
}

#[test]
fn paint_no_primitives_sets_up_and_tears_down() {
    let mut p = new_painter();
    let commands = p.paint_primitives(&[], vec![]);
    let mut expected = prologue();
    expected.extend(epilogue());
    assert_eq!(commands, expected);
}

#[test]
fn paint_uploads_before_it_draws() {
    let mut p = new_painter();
    p.set_texture(A, &whole(2, 2));
    let prims = vec![clipped(tri(A, 1))];
    assert!(p.can_paint(&prims));
    assert_eq!(p.unallocated_textures(), 1);
    let commands = p.paint_primitives(&prims, vec![33]);
    let mut expected = upload_commands(33, 2, 2);
    expected.extend(prologue());
    expected.extend(mesh_commands(33, BOX, &tri(A, 1)));
    expected.extend(epilogue());
    assert_eq!(commands, expected);
    let t = p.texture(A).unwrap();
    assert_eq!(t.texture(), Some(33));
    assert!(!t.is_dirty());
}

#[test]
fn primitives_are_drawn_in_the_order_given() {
    let mut p = new_painter();
    p.set_texture(A, &whole(1, 1));
    p.set_texture(B, &whole(1, 1));
    p.upload_user_textures(vec![1, 2]);
    let first = tri(A, 10);
    let second = tri(B, 200);

    let commands = p.paint_primitives(&[clipped(first.clone()), clipped(second.clone())], vec![]);
    let mut expected = prologue();
    expected.extend(mesh_commands(1, BOX, &first));
    expected.extend(mesh_commands(2, BOX, &second));
    expected.extend(epilogue());
    assert_eq!(commands, expected);

    let swapped = p.paint_primitives(&[clipped(second.clone()), clipped(first.clone())], vec![]);
    let mut expected = prologue();
    expected.extend(mesh_commands(2, BOX, &second));
    expected.extend(mesh_commands(1, BOX, &first));
    expected.extend(epilogue());
    assert_eq!(swapped, expected);

    let draws: Vec<usize> = commands
        .iter()
        .enumerate()
        .filter(|(_, c)| matches!(c, GlCommand::DrawTriangles { .. }))
        .map(|(i, _)| i)
        .collect();
    assert_eq!(draws, vec![9 + 17, 9 + 21 + 17]);
    assert_eq!(commands[9], GlCommand::BindTexture(1));
    assert_eq!(commands[9 + 21], GlCommand::BindTexture(2));
}

#[test]
fn scissor_test_stays_on_for_every_primitive() {
    let mut p = new_painter();
    p.set_texture(A, &whole(1, 1));
    p.upload_user_textures(vec![1]);
    let commands =
        p.paint_primitives(&[clipped(tri(A, 1)), clipped(tri(A, 2)), clipped(tri(A, 3))], vec![]);
    let off = commands
        .iter()
        .position(|c| *c == GlCommand::Disable(Capability::ScissorTest))
        .unwrap();
    let last_draw = commands
        .iter()
        .rposition(|c| matches!(c, GlCommand::DrawTriangles { .. }))
        .unwrap();
    assert!(last_draw < off);
    assert_eq!(off, commands.len() - 2);
}

#[test]
fn callback_cannot_be_painted() {
    let mut p = new_painter();
    p.set_texture(A, &whole(1, 1));
    assert!(!p.can_paint(&[callback()]));
    assert_eq!(p.first_unpaintable(&[clipped(tri(A, 1)), callback()]), Some(1));
}

#[test]
fn mesh_with_an_unknown_texture_cannot_be_painted() {
    let mut p = new_painter();
    p.set_texture(A, &whole(1, 1));
    assert!(p.can_paint(&[clipped(tri(A, 1))]));
    assert!(!p.can_paint(&[clipped(tri(B, 1))]));
    assert_eq!(p.first_unpaintable(&[clipped(tri(B, 1)), callback()]), Some(0));
    assert_eq!(p.first_unpaintable(&[clipped(tri(A, 1)), clipped(tri(A, 2))]), None);
    assert_eq!(p.first_unpaintable(&[]), None);
}

#[test]
fn malformed_mesh_cannot_be_painted() {
    let mut p = new_painter();
    p.set_texture(A, &whole(1, 1));
    let mut mesh = tri(A, 1);
    mesh.indices = vec![0, 1, 3];
    assert!(!p.can_paint(&[clipped(mesh)]));
}

#[test]
fn frame_applies_deltas_paints_and_frees() {
    let mut p = new_painter();
    let delta = TexturesDelta { set: vec![(A, whole(2, 1))], free: vec![A] };
    let prims = vec![clipped(tri(A, 1))];
    assert_eq!(p.plan_frame(&prims, &delta), takes(1));
    let commands = p.paint_and_update_textures(&prims, &delta, vec![55]);
    let mut expected = upload_commands(55, 2, 1);
    expected.extend(prologue());
    expected.extend(mesh_commands(55, BOX, &tri(A, 1)));
    expected.extend(epilogue());
    expected.push(GlCommand::DeleteTexture(55));
    assert_eq!(commands, expected);
    assert!(p.texture(A).is_none());
    assert_eq!(p.texture_count(), 0);
}

#[test]
fn frame_with_a_patch_and_a_replacement() {
    let mut p = new_painter();
    p.set_texture(A, &whole(4, 4));
    p.set_texture(B, &whole(1, 1));
    p.upload_user_textures(vec![1, 2]);
    let delta = TexturesDelta {
        set: vec![(A, part(1, 2, 2, 1)), (B, whole(3, 1)), (TextureId::User(99), part(0, 0, 1, 1))],
        free: vec![TextureId::User(42)],
    };
    let prims = vec![clipped(tri(B, 1)), clipped(tri(A, 2))];
    assert_eq!(p.plan_frame(&prims, &delta), Ok(FramePlan { names: 1, skipped: vec![2] }));
    let commands = p.paint_and_update_textures(&prims, &delta, vec![3]);
    let mut expected = vec![
        GlCommand::BindTexture(1),
        GlCommand::UnpackAlignment(1),
        GlCommand::TexParameter(TextureParameter::SwizzleAlphaFromRed),
        GlCommand::TexSubImage { x: 1, y: 2, width: 2, height: 1, pixels: vec![255; 8] },
        GlCommand::DeleteTexture(2),
    ];
    expected.extend(upload_commands(3, 3, 1));
    expected.extend(prologue());
    expected.extend(mesh_commands(3, BOX, &tri(B, 1)));
    expected.extend(mesh_commands(1, BOX, &tri(A, 2)));
    expected.extend(epilogue());
    assert_eq!(commands, expected);
    assert_eq!(p.texture_count(), 2);
    assert_eq!(p.texture(B).unwrap().texture(), Some(3));
    assert_eq!(p.texture(B).unwrap().size(), (3, 1));
    assert!(!p.texture(A).unwrap().is_dirty());
}

#[test]
fn frame_frees_in_the_order_given() {
    let mut p = new_painter();
    p.set_texture(A, &whole(1, 1));
    p.set_texture(B, &whole(1, 1));
    p.upload_user_textures(vec![1, 2]);
    let delta = TexturesDelta { set: vec![], free: vec![B, A, B] };
    assert_eq!(p.plan_frame(&[], &delta), takes(0));
    let commands = p.paint_and_update_textures(&[], &delta, vec![]);
    let mut expected = prologue();
    expected.extend(epilogue());
    expected.push(GlCommand::DeleteTexture(2));
    expected.push(GlCommand::DeleteTexture(1));
    assert_eq!(commands, expected);
    assert_eq!(p.texture_count(), 0);
}

#[test]
fn plan_counts_the_textures_without_gpu_object() {
    let mut p = new_painter();
    p.set_texture(A, &whole(1, 1));
    p.set_texture(B, &whole(1, 1));
    p.upload_user_textures(vec![1, 2]);
    p.set_texture(TextureId::User(1), &whole(1, 1));
    let delta = TexturesDelta {
        set: vec![
            (A, whole(2, 2)),
            (TextureId::User(2), whole(1, 1)),
            (TextureId::User(2), whole(1, 2)),
        ],
        free: vec![A],
    };
    assert_eq!(p.plan_frame(&[], &delta), takes(3));
    assert_eq!(p.texture(A).unwrap().texture(), Some(1));
    assert_eq!(p.texture_count(), 3);
}

#[test]
fn plan_names_the_first_delta_that_is_not_accepted() {
    let mut p = new_painter();
    p.set_texture(A, &whole(4, 4));
    p.upload_user_textures(vec![1]);
    let delta = TexturesDelta {
        set: vec![(A, part(0, 0, 4, 4)), (A, part(3, 3, 2, 1)), (A, part(9, 9, 1, 1))],
        free: vec![],
    };
    assert_eq!(p.plan_frame(&[callback()], &delta), Err(FrameFault::Delta(1)));
}

#[test]
fn plan_refuses_a_patch_on_a_texture_set_in_the_same_frame() {
    let mut p = new_painter();
    p.set_texture(A, &whole(4, 4));
    p.upload_user_textures(vec![1]);
    let delta = TexturesDelta { set: vec![(A, whole(4, 4)), (A, part(0, 0, 1, 1))], free: vec![] };
    assert_eq!(p.plan_frame(&[], &delta), Err(FrameFault::Delta(1)));
}

#[test]
fn plan_refuses_a_whole_image_with_a_wrong_pixel_count() {
    let p = new_painter();
    let mut bad = whole(2, 2);
    bad.image.pixels.pop();
    let delta = TexturesDelta { set: vec![(A, bad)], free: vec![] };
    assert_eq!(p.plan_frame(&[], &delta), Err(FrameFault::Delta(0)));
}

#[test]
fn plan_names_the_first_primitive_that_cannot_be_painted() {
    let mut p = new_painter();
    p.set_texture(A, &whole(1, 1));
    let delta = TexturesDelta { set: vec![(B, whole(1, 1))], free: vec![B] };
    let prims = vec![clipped(tri(A, 1)), clipped(tri(B, 1)), callback(), clipped(tri(A, 1))];
    assert_eq!(p.plan_frame(&prims, &delta), Err(FrameFault::Primitive(2)));
    let prims = vec![clipped(tri(TextureId::User(8), 1)), callback()];
    assert_eq!(p.plan_frame(&prims, &delta), Err(FrameFault::Primitive(0)));
}

#[test]
fn plan_changes_nothing() {
    let mut p = new_painter();
    p.set_texture(A, &whole(1, 1));
    let delta = TexturesDelta { set: vec![(A, whole(3, 3)), (B, whole(1, 1))], free: vec![A] };
    assert_eq!(p.plan_frame(&[clipped(tri(B, 1))], &delta), takes(2));
    assert_eq!(p.texture_count(), 1);
    let t = p.texture(A).unwrap();
    assert_eq!(t.size(), (1, 1));
    assert_eq!(t.pending_pixels(), &vec![255; 4]);
    assert!(p.texture(B).is_none());
}

#[test]
fn plan_lists_the_patches_that_are_skipped() {
    let mut p = new_painter();
    p.set_texture(A, &whole(4, 4));
    p.upload_user_textures(vec![1]);
    let delta = TexturesDelta {
        set: vec![
            (B, part(0, 0, 1, 1)),
            (A, part(0, 0, 1, 1)),
            (TextureId::User(8), part(9, 9, 9, 9)),
            (B, whole(1, 1)),
            (TextureId::User(8), part(0, 0, 1, 1)),
        ],
        free: vec![],
    };
    assert_eq!(
        p.plan_frame(&[], &delta),
        Ok(FramePlan { names: 1, skipped: vec![0, 2, 4] })
    );
    let commands = p.paint_and_update_textures(&[], &delta, vec![2]);
    let mut expected = vec![
        GlCommand::BindTexture(1),
        GlCommand::UnpackAlignment(1),
        GlCommand::TexParameter(TextureParameter::SwizzleAlphaFromRed),
        GlCommand::TexSubImage { x: 0, y: 0, width: 1, height: 1, pixels: vec![255; 4] },
    ];
    expected.extend(upload_commands(2, 1, 1));
    expected.extend(prologue());
    expected.extend(epilogue());
    assert_eq!(commands, expected);
    assert!(p.texture(TextureId::User(8)).is_none());
    assert!(!p.texture(A).unwrap().is_dirty());
    assert_eq!(p.texture(A).unwrap().texture(), Some(1));
}
