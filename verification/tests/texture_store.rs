use egui_glfw_gl::command::TextureParameter;
use egui_glfw_gl::texture::TexelPos;
use egui_glfw_gl::{
    Color32, ColorImage, GlCommand, GlObjects, ImageDelta, Painter, TextureFilter, TextureId,
    UserTexture,
};

fn painter() -> Painter {
    Painter::new(
        GlObjects {
            program: 1,
            vertex_array: 2,
            index_buffer: 3,
            pos_buffer: 4,
            tc_buffer: 5,
            color_buffer: 6,
        },
        800,
        600,
    )
}

fn gray(v: u8) -> Color32 {
    Color32 { r: v, g: v, b: v, a: 255 }
}

fn full(width: usize, height: usize, v: u8, filter: TextureFilter) -> ImageDelta {
    ImageDelta {
        image: ColorImage { width, height, pixels: vec![gray(v); width * height] },
        filter,
        pos: None,
    }
}

fn patch(x: usize, y: usize, width: usize, height: usize, v: u8) -> ImageDelta {
    ImageDelta {
        image: ColorImage { width, height, pixels: vec![gray(v); width * height] },
        filter: TextureFilter::Linear,
        pos: Some(TexelPos { x, y }),
    }
}

fn gray_bytes(v: u8, n: usize) -> Vec<u8> {
    let mut bytes = Vec::new();
    for _ in 0..n {
        bytes.push(v);
        bytes.push(v);
        bytes.push(v);
        bytes.push(255);
    }
    bytes
}

const FONT: TextureId = TextureId::Managed(0);

#[test]
fn new_painter_has_no_textures() {
    let p = painter();
    assert_eq!(p.texture_count(), 0);
    assert_eq!(p.unallocated_textures(), 0);
    assert_eq!(p.canvas_size(), (800, 600));
    assert_eq!(p.objects().program, 1);
    assert_eq!(p.objects().color_buffer, 6);
    assert!(p.texture(FONT).is_none());
}

#[test]
fn set_full_creates_a_texture_that_waits_for_upload() {
    let mut p = painter();
    let commands = p.set_texture(FONT, &full(2, 3, 7, TextureFilter::Nearest));
    assert_eq!(commands, vec![]);
    assert_eq!(p.texture_count(), 1);
    let t = p.texture(FONT).unwrap();
    assert_eq!(t.size(), (2, 3));
    assert_eq!(t.filtering(), TextureFilter::Nearest);
    assert_eq!(t.texture(), None);
    assert!(t.is_dirty());
    assert_eq!(t.pending_pixels(), &gray_bytes(7, 6));
    assert_eq!(p.unallocated_textures(), 1);
}

#[test]
fn set_full_keeps_the_filter_that_was_supplied() {
    let mut p = painter();
    p.set_texture(TextureId::Managed(1), &full(1, 1, 0, TextureFilter::Linear));
    p.set_texture(TextureId::Managed(2), &full(1, 1, 0, TextureFilter::Nearest));
    assert_eq!(p.texture(TextureId::Managed(1)).unwrap().filtering(), TextureFilter::Linear);
    assert_eq!(p.texture(TextureId::Managed(2)).unwrap().filtering(), TextureFilter::Nearest);
}

#[test]
fn managed_and_user_textures_with_one_number_are_different() {
    let mut p = painter();
    p.set_texture(TextureId::Managed(4), &full(1, 1, 0, TextureFilter::Linear));
    assert!(p.texture(TextureId::Managed(4)).is_some());
    assert!(p.texture(TextureId::User(4)).is_none());
}

#[test]
fn set_full_then_upload_leaves_the_texture_clean_with_a_gpu_object() {
    let mut p = painter();
    p.set_texture(FONT, &full(2, 3, 7, TextureFilter::Linear));
    let commands = p.upload_user_textures(vec![77]);
    assert_eq!(
        commands,
        vec![
            GlCommand::BindTexture(77),
            GlCommand::TexParameter(TextureParameter::WrapSClampToEdge),
            GlCommand::TexParameter(TextureParameter::WrapTClampToEdge),
            GlCommand::TexParameter(TextureParameter::MinFilter(TextureFilter::Linear)),
            GlCommand::TexParameter(TextureParameter::MagFilter(TextureFilter::Linear)),
            GlCommand::TexImage { width: 2, height: 3, pixels: gray_bytes(7, 6) },
        ]
    );
    let t = p.texture(FONT).unwrap();
    assert!(!t.is_dirty());
    assert_eq!(t.texture(), Some(77));
    assert_eq!(t.size(), (2, 3));
    assert_eq!(t.filtering(), TextureFilter::Linear);
    assert!(t.pending_pixels().is_empty());
    assert_eq!(p.unallocated_textures(), 0);
}

#[test]
fn upload_sets_a_nearest_texture_up_with_the_nearest_filter() {
    let mut p = painter();
    p.set_texture(FONT, &full(1, 1, 9, TextureFilter::Nearest));
    let commands = p.upload_user_textures(vec![5]);
    assert_eq!(
        commands[3],
        GlCommand::TexParameter(TextureParameter::MinFilter(TextureFilter::Nearest))
    );
    assert_eq!(
        commands[4],
        GlCommand::TexParameter(TextureParameter::MagFilter(TextureFilter::Nearest))
    );
}

#[test]
fn upload_of_an_empty_store_does_nothing() {
    let mut p = painter();
    assert_eq!(p.upload_user_textures(vec![]), vec![]);
    assert_eq!(p.texture_count(), 0);
}

#[test]
fn upload_hands_out_names_in_slot_order() {
    let mut p = painter();
    p.set_texture(TextureId::Managed(0), &full(1, 1, 1, TextureFilter::Linear));
    p.set_texture(TextureId::User(9), &full(1, 1, 2, TextureFilter::Linear));
    p.set_texture(TextureId::Managed(3), &full(1, 1, 3, TextureFilter::Linear));
    assert_eq!(p.unallocated_textures(), 3);
    let commands = p.upload_user_textures(vec![10, 11, 12]);
    assert_eq!(commands.len(), 18);
    assert_eq!(commands[0], GlCommand::BindTexture(10));
    assert_eq!(commands[6], GlCommand::BindTexture(11));
    assert_eq!(commands[12], GlCommand::BindTexture(12));
    assert_eq!(p.texture(TextureId::Managed(0)).unwrap().texture(), Some(10));
    assert_eq!(p.texture(TextureId::User(9)).unwrap().texture(), Some(11));
    assert_eq!(p.texture(TextureId::Managed(3)).unwrap().texture(), Some(12));
}

#[test]
fn second_upload_in_a_row_does_nothing() {
    let mut p = painter();
    p.set_texture(FONT, &full(2, 2, 7, TextureFilter::Linear));
    p.set_texture(TextureId::User(1), &full(1, 1, 8, TextureFilter::Nearest));
    let first = p.upload_user_textures(vec![20, 21]);
    assert_eq!(first.len(), 12);
    assert_eq!(p.unallocated_textures(), 0);
    let second = p.upload_user_textures(vec![]);
    assert_eq!(second, vec![]);
    let t = p.texture(FONT).unwrap();
    assert!(!t.is_dirty());
    assert_eq!(t.texture(), Some(20));
    let u = p.texture(TextureId::User(1)).unwrap();
    assert!(!u.is_dirty());
    assert_eq!(u.texture(), Some(21));
}

#[test]
fn upload_sends_only_the_textures_that_changed() {
    let mut p = painter();
    p.set_texture(FONT, &full(1, 1, 7, TextureFilter::Linear));
    let id = p.new_user_texture((1, 2), &[gray(1), gray(2)], TextureFilter::Linear);
    p.upload_user_textures(vec![30, 31]);
    p.update_user_texture_data(&id, &[gray(3), gray(4)]);
    assert_eq!(p.unallocated_textures(), 0);
    let commands = p.upload_user_textures(vec![]);
    let mut bytes = gray_bytes(3, 1);
    bytes.extend(gray_bytes(4, 1));
    assert_eq!(
        commands,
        vec![
            GlCommand::BindTexture(31),
            GlCommand::TexImage { width: 1, height: 2, pixels: bytes },
        ]
    );
    assert_eq!(p.texture(id).unwrap().texture(), Some(31));
    assert!(!p.texture(id).unwrap().is_dirty());
}

#[test]
fn set_full_on_an_uploaded_texture_releases_its_gpu_object() {
    let mut p = painter();
    p.set_texture(FONT, &full(2, 2, 7, TextureFilter::Linear));
    p.set_texture(TextureId::User(1), &full(1, 1, 8, TextureFilter::Linear));
    p.upload_user_textures(vec![40, 41]);
    let commands = p.set_texture(FONT, &full(4, 1, 9, TextureFilter::Nearest));
    assert_eq!(commands, vec![GlCommand::DeleteTexture(40)]);
    assert_eq!(p.texture_count(), 2);
    let t = p.texture(FONT).unwrap();
    assert_eq!(t.size(), (4, 1));
    assert_eq!(t.filtering(), TextureFilter::Nearest);
    assert_eq!(t.texture(), None);
    assert!(t.is_dirty());
    assert_eq!(p.unallocated_textures(), 1);
    let commands = p.upload_user_textures(vec![42]);
    assert_eq!(commands.len(), 6);
    assert_eq!(p.texture(FONT).unwrap().texture(), Some(42));
    assert_eq!(p.texture(TextureId::User(1)).unwrap().texture(), Some(41));
}

#[test]
fn set_full_twice_before_an_upload_releases_nothing() {
    let mut p = painter();
    p.set_texture(FONT, &full(2, 2, 7, TextureFilter::Linear));
    let commands = p.set_texture(FONT, &full(1, 1, 8, TextureFilter::Linear));
    assert_eq!(commands, vec![]);
    assert_eq!(p.texture_count(), 1);
    assert_eq!(p.texture(FONT).unwrap().pending_pixels(), &gray_bytes(8, 1));
}

#[test]
fn patch_is_written_to_the_gpu_at_once_and_marks_dirty() {
    let mut p = painter();
    p.set_texture(FONT, &full(8, 4, 7, TextureFilter::Linear));
    p.upload_user_textures(vec![50]);
    let delta = patch(6, 1, 2, 3, 9);
    assert!(p.accepts(FONT, &delta));
    let commands = p.set_texture(FONT, &delta);
    assert_eq!(
        commands,
        vec![
            GlCommand::BindTexture(50),
            GlCommand::UnpackAlignment(1),
            GlCommand::TexParameter(TextureParameter::SwizzleAlphaFromRed),
            GlCommand::TexSubImage { x: 6, y: 1, width: 2, height: 3, pixels: gray_bytes(9, 6) },
        ]
    );
    let t = p.texture(FONT).unwrap();
    assert!(t.is_dirty());
    assert_eq!(t.texture(), Some(50));
    assert_eq!(t.size(), (8, 4));
    assert!(t.pending_pixels().is_empty());
}

#[test]
fn patch_for_an_unknown_texture_changes_nothing() {
    let mut p = painter();
    p.set_texture(FONT, &full(8, 4, 7, TextureFilter::Linear));
    p.upload_user_textures(vec![50]);
    let delta = patch(100, 100, 2, 3, 9);
    assert!(p.accepts(TextureId::Managed(1), &delta));
    let commands = p.set_texture(TextureId::Managed(1), &delta);
    assert_eq!(commands, vec![]);
    assert_eq!(p.texture_count(), 1);
    assert!(p.texture(TextureId::Managed(1)).is_none());
    assert!(!p.texture(FONT).unwrap().is_dirty());
}

#[test]
fn patch_that_touches_the_edges_is_accepted() {
    let mut p = painter();
    p.set_texture(FONT, &full(8, 4, 7, TextureFilter::Linear));
    p.upload_user_textures(vec![50]);
    assert!(p.accepts(FONT, &patch(0, 0, 8, 4, 1)));
    assert!(p.accepts(FONT, &patch(7, 3, 1, 1, 1)));
    assert!(p.accepts(FONT, &patch(8, 4, 0, 0, 1)));
}

#[test]
fn patch_out_of_bounds_is_not_accepted() {
    let mut p = painter();
    p.set_texture(FONT, &full(8, 4, 7, TextureFilter::Linear));
    p.upload_user_textures(vec![50]);
    assert!(!p.accepts(FONT, &patch(7, 0, 2, 1, 1)));
    assert!(!p.accepts(FONT, &patch(0, 3, 1, 2, 1)));
    assert!(!p.accepts(FONT, &patch(9, 0, 0, 0, 1)));
    assert!(!p.accepts(FONT, &patch(0, 0, 9, 1, 1)));
    assert!(!p.accepts(FONT, &patch(usize::MAX, 0, 1, 1, 1)));
}

#[test]
fn patch_before_the_first_upload_is_not_accepted() {
    let mut p = painter();
    p.set_texture(FONT, &full(8, 4, 7, TextureFilter::Linear));
    assert!(!p.accepts(FONT, &patch(0, 0, 1, 1, 1)));
}

#[test]
fn delta_with_a_wrong_pixel_count_is_not_accepted() {
    let mut p = painter();
    p.set_texture(FONT, &full(8, 4, 7, TextureFilter::Linear));
    p.upload_user_textures(vec![50]);
    let mut whole = full(2, 2, 1, TextureFilter::Linear);
    whole.image.pixels.pop();
    assert!(!p.accepts(TextureId::Managed(1), &whole));
    let mut part = patch(0, 0, 2, 2, 1);
    part.image.pixels.push(gray(0));
    assert!(!p.accepts(FONT, &part));
    assert!(p.accepts(TextureId::Managed(1), &part));
}

#[test]
fn whole_image_larger_than_a_signed_size_is_not_accepted() {
    let p = painter();
    let wide = ImageDelta {
        image: ColorImage { width: i32::MAX as usize + 1, height: 0, pixels: vec![] },
        filter: TextureFilter::Linear,
        pos: None,
    };
    assert!(!p.accepts(FONT, &wide));
    let tall = ImageDelta {
        image: ColorImage { width: 0, height: i32::MAX as usize + 1, pixels: vec![] },
        filter: TextureFilter::Linear,
        pos: None,
    };
    assert!(!p.accepts(FONT, &tall));
    let widest = ImageDelta {
        image: ColorImage { width: i32::MAX as usize, height: 0, pixels: vec![] },
        filter: TextureFilter::Linear,
        pos: None,
    };
    assert!(p.accepts(FONT, &widest));
}

#[test]
fn freed_texture_is_gone_and_its_gpu_object_released() {
    let mut p = painter();
    p.set_texture(FONT, &full(1, 1, 7, TextureFilter::Linear));
    p.set_texture(TextureId::User(1), &full(1, 1, 8, TextureFilter::Linear));
    p.upload_user_textures(vec![60, 61]);
    let commands = p.free_texture(FONT);
    assert_eq!(commands, vec![GlCommand::DeleteTexture(60)]);
    assert!(p.texture(FONT).is_none());
    assert_eq!(p.texture_count(), 1);
    assert_eq!(p.texture(TextureId::User(1)).unwrap().texture(), Some(61));
}

#[test]
fn freeing_again_does_nothing() {
    let mut p = painter();
    p.set_texture(FONT, &full(1, 1, 7, TextureFilter::Linear));
    p.set_texture(TextureId::User(1), &full(1, 1, 8, TextureFilter::Linear));
    p.upload_user_textures(vec![60, 61]);
    p.free_texture(FONT);
    let commands = p.free_texture(FONT);
    assert_eq!(commands, vec![]);
    assert!(p.texture(FONT).is_none());
    assert_eq!(p.texture_count(), 1);
    assert!(p.texture(TextureId::User(1)).is_some());
}

#[test]
fn freeing_an_unknown_texture_does_nothing() {
    let mut p = painter();
    assert_eq!(p.free_texture(TextureId::User(5)), vec![]);
    assert_eq!(p.texture_count(), 0);
}

#[test]
fn freeing_a_texture_that_was_never_uploaded_releases_nothing() {
    let mut p = painter();
    p.set_texture(FONT, &full(1, 1, 7, TextureFilter::Linear));
    assert_eq!(p.free_texture(FONT), vec![]);
    assert!(p.texture(FONT).is_none());
    assert_eq!(p.unallocated_textures(), 0);
}

#[test]
fn freed_identifier_can_be_set_again() {
    let mut p = painter();
    p.set_texture(FONT, &full(1, 1, 7, TextureFilter::Linear));
    p.upload_user_textures(vec![60]);
    p.free_texture(FONT);
    assert_eq!(p.set_texture(FONT, &full(2, 1, 8, TextureFilter::Linear)), vec![]);
    let t = p.texture(FONT).unwrap();
    assert_eq!(t.size(), (2, 1));
    assert_eq!(t.texture(), None);
}

#[test]
fn new_user_texture_gets_the_least_unused_number() {
    let mut p = painter();
    p.set_texture(FONT, &full(1, 1, 7, TextureFilter::Linear));
    let id = p.new_user_texture((2, 1), &[gray(1), gray(2)], TextureFilter::Nearest);
    assert_eq!(id, TextureId::User(0));
    assert_eq!(p.texture_count(), 2);
    let t = p.texture(id).unwrap();
    assert_eq!(t.size(), (2, 1));
    assert_eq!(t.filtering(), TextureFilter::Nearest);
    assert_eq!(t.texture(), None);
    assert!(t.is_dirty());
    assert_eq!(t.pending_pixels(), &vec![1, 1, 1, 255, 2, 2, 2, 255]);
    let next = p.new_user_texture((0, 0), &[], TextureFilter::Linear);
    assert_eq!(next, TextureId::User(1));
    assert_eq!(p.texture_count(), 3);
    assert_eq!(p.texture(FONT).unwrap().pending_pixels(), &gray_bytes(7, 1));
}

#[test]
fn new_user_texture_skips_numbers_that_are_taken() {
    let mut p = painter();
    p.set_texture(TextureId::User(0), &full(1, 1, 7, TextureFilter::Linear));
    p.set_texture(TextureId::User(1), &full(1, 1, 8, TextureFilter::Linear));
    p.set_texture(TextureId::User(3), &full(1, 1, 9, TextureFilter::Linear));
    p.set_texture(TextureId::Managed(2), &full(1, 1, 9, TextureFilter::Linear));
    assert_eq!(p.new_user_texture((0, 0), &[], TextureFilter::Linear), TextureId::User(2));
    assert_eq!(p.new_user_texture((0, 0), &[], TextureFilter::Linear), TextureId::User(4));
    assert_eq!(p.texture_count(), 6);
}

#[test]
fn new_user_texture_leaves_live_textures_alone() {
    let mut p = painter();
    let a = p.new_user_texture((1, 1), &[gray(1)], TextureFilter::Linear);
    let b = p.new_user_texture((1, 1), &[gray(2)], TextureFilter::Nearest);
    assert_eq!((a, b), (TextureId::User(0), TextureId::User(1)));
    p.upload_user_textures(vec![80, 81]);
    p.update_user_texture_data(&b, &[gray(5)]);
    assert_eq!(p.free_texture(a), vec![GlCommand::DeleteTexture(80)]);
    let c = p.new_user_texture((1, 1), &[gray(3)], TextureFilter::Linear);
    assert_eq!(c, TextureId::User(0));
    assert_ne!(c, b);
    assert_eq!(p.texture_count(), 2);
    let kept = p.texture(b).unwrap();
    assert_eq!(kept.texture(), Some(81));
    assert_eq!(kept.filtering(), TextureFilter::Nearest);
    assert_eq!(kept.pending_pixels(), &gray_bytes(5, 1));
    assert!(kept.is_dirty());
    let made = p.texture(c).unwrap();
    assert_eq!(made.texture(), None);
    assert_eq!(made.pending_pixels(), &gray_bytes(3, 1));
    let commands = p.upload_user_textures(vec![82]);
    assert_eq!(commands[0], GlCommand::BindTexture(81));
    assert_eq!(commands[2], GlCommand::BindTexture(82));
    assert_eq!(commands.len(), 8);
}

#[test]
fn update_user_texture_data_queues_the_new_pixels() {
    let mut p = painter();
    let id = p.new_user_texture((1, 1), &[gray(1)], TextureFilter::Linear);
    p.upload_user_textures(vec![70]);
    p.update_user_texture_data(&id, &[gray(200)]);
    let t = p.texture(id).unwrap();
    assert!(t.is_dirty());
    assert_eq!(t.texture(), Some(70));
    assert_eq!(t.size(), (1, 1));
    assert_eq!(t.pending_pixels(), &gray_bytes(200, 1));
}

#[test]
fn user_texture_from_raw_is_clean_and_owns_the_gpu_object() {
    let t = UserTexture::from_raw(9);
    assert_eq!(t.texture(), Some(9));
    assert_eq!(t.size(), (0, 0));
    assert_eq!(t.filtering(), TextureFilter::Linear);
    assert!(!t.is_dirty());
    assert!(t.pending_pixels().is_empty());
    assert_eq!(t.delete(), vec![GlCommand::DeleteTexture(9)]);
}

#[test]
fn user_texture_without_gpu_object_has_nothing_to_delete() {
    let t = UserTexture::new((2, 2), vec![0; 16], TextureFilter::Nearest);
    assert_eq!(t.texture(), None);
    assert!(t.is_dirty());
    assert_eq!(t.delete(), vec![]);
}

#[test]
fn user_texture_contains_region() {
    let t = UserTexture::new((8, 4), vec![], TextureFilter::Linear);
    assert!(t.contains_region(0, 0, 8, 4));
    assert!(t.contains_region(6, 1, 2, 3));
    assert!(!t.contains_region(7, 0, 2, 1));
    assert!(!t.contains_region(0, 2, 1, 3));
    assert!(t.contains_region(-3, -3, 5, 5));
    assert!(!t.contains_region(i32::MAX, 0, i32::MAX, 0));
}

#[test]
fn update_texture_part_of_a_raw_texture() {
    let mut t = UserTexture::from_raw(9);
    let commands = t.update_texture_part(0, 0, 0, 0, vec![]);
    assert_eq!(
        commands,
        vec![
            GlCommand::BindTexture(9),
            GlCommand::UnpackAlignment(1),
            GlCommand::TexParameter(TextureParameter::SwizzleAlphaFromRed),
            GlCommand::TexSubImage { x: 0, y: 0, width: 0, height: 0, pixels: vec![] },
        ]
    );
    assert!(t.is_dirty());
    assert_eq!(t.texture(), Some(9));
}

#[test]
fn upload_after_a_patch_sends_no_image() {
    let mut p = painter();
    p.set_texture(FONT, &full(8, 4, 7, TextureFilter::Linear));
    p.upload_user_textures(vec![50]);
    p.set_texture(FONT, &patch(6, 1, 2, 3, 9));
    assert!(p.texture(FONT).unwrap().is_dirty());
    assert_eq!(p.unallocated_textures(), 0);
    let commands = p.upload_user_textures(vec![]);
    assert_eq!(commands, vec![]);
    let t = p.texture(FONT).unwrap();
    assert!(!t.is_dirty());
    assert_eq!(t.texture(), Some(50));
    assert_eq!(t.size(), (8, 4));
    assert!(t.pending_pixels().is_empty());
}

#[test]
fn upload_sends_no_image_that_is_not_whole() {
    let mut p = painter();
    let fresh = p.new_user_texture((2, 2), &[gray(1); 4], TextureFilter::Linear);
    let old = p.new_user_texture((2, 2), &[gray(2); 4], TextureFilter::Linear);
    p.upload_user_textures(vec![60, 61]);
    let late = p.new_user_texture((2, 2), &[gray(3); 4], TextureFilter::Nearest);
    p.update_user_texture_data(&old, &[gray(4); 3]);
    p.update_user_texture_data(&late, &[gray(5); 3]);
    let commands = p.upload_user_textures(vec![62]);
    assert_eq!(
        commands,
        vec![
            GlCommand::BindTexture(62),
            GlCommand::TexParameter(TextureParameter::WrapSClampToEdge),
            GlCommand::TexParameter(TextureParameter::WrapTClampToEdge),
            GlCommand::TexParameter(TextureParameter::MinFilter(TextureFilter::Nearest)),
            GlCommand::TexParameter(TextureParameter::MagFilter(TextureFilter::Nearest)),
        ]
    );
    for id in [fresh, old, late] {
        let t = p.texture(id).unwrap();
        assert!(!t.is_dirty());
        assert!(t.texture().is_some());
        assert!(t.pending_pixels().is_empty());
    }
}

#[test]
fn upload_sends_more_than_a_whole_image_as_it_is() {
    let mut p = painter();
    let id = p.new_user_texture((1, 1), &[gray(1)], TextureFilter::Linear);
    p.upload_user_textures(vec![60]);
    p.update_user_texture_data(&id, &[gray(4), gray(5)]);
    let mut bytes = gray_bytes(4, 1);
    bytes.extend(gray_bytes(5, 1));
    assert_eq!(
        p.upload_user_textures(vec![]),
        vec![
            GlCommand::BindTexture(60),
            GlCommand::TexImage { width: 1, height: 1, pixels: bytes },
        ]
    );
}

#[test]
fn upload_of_a_texture_without_texels_sends_an_empty_image() {
    let mut p = painter();
    p.new_user_texture((0, 5), &[], TextureFilter::Linear);
    let commands = p.upload_user_textures(vec![60]);
    assert_eq!(commands.len(), 6);
    assert_eq!(commands[5], GlCommand::TexImage { width: 0, height: 5, pixels: vec![] });
}

#[test]
fn skipped_deltas_are_the_patches_for_unknown_textures() {
    let mut p = painter();
    p.set_texture(FONT, &full(8, 4, 7, TextureFilter::Linear));
    assert!(p.skips(TextureId::Managed(1), &patch(0, 0, 1, 1, 1)));
    assert!(!p.skips(FONT, &patch(0, 0, 1, 1, 1)));
    assert!(!p.skips(TextureId::Managed(1), &full(1, 1, 1, TextureFilter::Linear)));
    assert!(!p.skips(FONT, &full(1, 1, 1, TextureFilter::Linear)));
}
