use tile_world::animated_sprite::AnimatedSprite;
use tile_world::common::{Blit, Rect, Size};
use tile_world::sprite::{texture_outcome, Sprite, TextureDraw, TextureReport};
use tile_world::viewport::{clip_axis, visible_tiles, TileRange};

fn loaded(w: u32, h: u32) -> Sprite {
    let mut s = Sprite::new();
    assert_eq!(s.load_from_file(Ok(Size { w, h })), Ok(()));
    s
}

fn sheet() -> AnimatedSprite {
    let mut a = AnimatedSprite::new();
    a.set_num_frames((8, 2));
    assert_eq!(a.load_from_file(Ok(Size { w: 64, h: 16 })), Ok(()));
    a
}

#[test]
fn empty_sprite_has_size_zero() {
    let s = Sprite::new();
    assert!(!s.is_loaded());
    assert_eq!((s.width(), s.height()), (0, 0));
    let d = Sprite::default();
    assert!(!d.is_loaded());
    assert_eq!((d.width(), d.height()), (0, 0));
}

#[test]
fn render_without_texture_draws_nothing() {
    let s = Sprite::new();
    assert_eq!(s.render(3, 4, None, None), None);
    assert_eq!(
        s.render(3, 4, Some(Size { w: 8, h: 8 }), Some(Rect { x: 0, y: 0, w: 8, h: 8 })),
        None
    );
}

#[test]
fn load_records_the_image_size() {
    let s = loaded(32, 128);
    assert!(s.is_loaded());
    assert_eq!((s.width(), s.height()), (32, 128));
}

#[test]
fn failed_load_hands_back_the_message_and_drops_the_texture() {
    let mut s = loaded(32, 128);
    assert_eq!(
        s.load_from_file(Err(String::from("bad image"))),
        Err(String::from("bad image"))
    );
    assert!(!s.is_loaded());
    assert_eq!((s.width(), s.height()), (32, 128));
    assert_eq!(s.render(0, 0, None, None), None);
}

#[test]
fn destination_defaults_to_the_sprite_size() {
    let s = loaded(32, 128);
    assert_eq!(
        s.render(-5, 7, None, None),
        Some(Blit { clip: None, dest: Rect { x: -5, y: 7, w: 32, h: 128 } })
    );
}

#[test]
fn destination_takes_the_clip_size() {
    let s = loaded(32, 128);
    let clip = Rect { x: 8, y: 16, w: 8, h: 4 };
    assert_eq!(
        s.render(1, 2, None, Some(clip)),
        Some(Blit { clip: Some(clip), dest: Rect { x: 1, y: 2, w: 8, h: 4 } })
    );
}

#[test]
fn size_overrides_the_clip_size() {
    let s = loaded(32, 128);
    let clip = Rect { x: 8, y: 16, w: 8, h: 4 };
    assert_eq!(
        s.render(1, 2, Some(Size { w: 20, h: 30 }), Some(clip)),
        Some(Blit { clip: Some(clip), dest: Rect { x: 1, y: 2, w: 20, h: 30 } })
    );
    assert_eq!(
        s.render(1, 2, Some(Size { w: 20, h: 30 }), None),
        Some(Blit { clip: None, dest: Rect { x: 1, y: 2, w: 20, h: 30 } })
    );
}

#[test]
fn render_target_has_the_requested_size() {
    let s = loaded(32, 128);
    let clip = Rect { x: 8, y: 16, w: 8, h: 4 };
    assert_eq!(
        s.render_to_texture(Some(Rect { x: 9, y: 9, w: 50, h: 60 }), Some(clip)),
        TextureDraw {
            width: 50,
            height: 60,
            blit: Some(Blit { clip: Some(clip), dest: Rect { x: 0, y: 0, w: 50, h: 60 } }),
        }
    );
    assert_eq!(
        s.render_to_texture(None, Some(clip)),
        TextureDraw {
            width: 8,
            height: 4,
            blit: Some(Blit { clip: Some(clip), dest: Rect { x: 0, y: 0, w: 8, h: 4 } }),
        }
    );
    assert_eq!(
        s.render_to_texture(None, None),
        TextureDraw {
            width: 32,
            height: 128,
            blit: Some(Blit { clip: None, dest: Rect { x: 0, y: 0, w: 32, h: 128 } }),
        }
    );
}

#[test]
fn render_target_of_an_empty_sprite_stays_blank() {
    let s = Sprite::new();
    assert_eq!(
        s.render_to_texture(Some(Rect { x: 0, y: 0, w: 16, h: 16 }), None),
        TextureDraw { width: 16, height: 16, blit: None }
    );
}

#[test]
fn new_animated_sprite_is_blank() {
    let a = AnimatedSprite::new();
    assert!(!a.is_loaded());
    assert_eq!(a.frame_width(), 0);
    assert_eq!(a.frame_height(), 0);
    assert_eq!(a.num_frames(), (0, 0));
    assert_eq!(a.frame_sequence_length(), 0);
}

#[test]
fn animated_sprite_frame_computation() {
    let a = sheet();
    assert_eq!(a.num_frames(), (8, 2));
    assert_eq!(a.frame_width(), 8);
    assert_eq!(a.frame_height(), 8);
    assert_eq!(
        a.render(10, 20, None, (3, 1)),
        Some(Blit {
            clip: Some(Rect { x: 24, y: 8, w: 8, h: 8 }),
            dest: Rect { x: 10, y: 20, w: 8, h: 8 },
        })
    );
}

#[test]
fn frame_size_rounds_down() {
    let mut a = AnimatedSprite::new();
    a.set_num_frames((3, 5));
    assert_eq!(a.load_from_file(Ok(Size { w: 64, h: 16 })), Ok(()));
    assert_eq!(a.frame_width(), 21);
    assert_eq!(a.frame_height(), 3);
}

#[test]
fn custom_sequence_indirection() {
    let mut a = sheet();
    a.set_custom_frame_sequence(Some(vec![(2, 0), (5, 1), (0, 0)]));
    assert_eq!(a.frame_sequence_length(), 3);
    let expected = Some(Blit {
        clip: Some(Rect { x: 40, y: 8, w: 8, h: 8 }),
        dest: Rect { x: 0, y: 0, w: 8, h: 8 },
    });
    assert_eq!(a.render(0, 0, None, (1, 0)), expected);
    assert_eq!(a.render(0, 0, None, (1, 7)), expected);
    assert_eq!(a.render(0, 0, None, (1, 1000)), expected);
    a.set_custom_frame_sequence(None);
    assert_eq!(a.frame_sequence_length(), 0);
    assert_eq!(
        a.render(0, 0, None, (1, 0)),
        Some(Blit {
            clip: Some(Rect { x: 8, y: 0, w: 8, h: 8 }),
            dest: Rect { x: 0, y: 0, w: 8, h: 8 },
        })
    );
}

#[test]
fn animated_size_overrides_the_frame_size() {
    let a = sheet();
    assert_eq!(
        a.render(1, 1, Some(Size { w: 32, h: 16 }), (0, 1)),
        Some(Blit {
            clip: Some(Rect { x: 0, y: 8, w: 8, h: 8 }),
            dest: Rect { x: 1, y: 1, w: 32, h: 16 },
        })
    );
}

#[test]
fn animated_sprite_without_sheet_draws_nothing() {
    let mut a = AnimatedSprite::new();
    a.set_num_frames((8, 2));
    assert_eq!(a.render(0, 0, None, (3, 1)), None);
    assert_eq!(
        a.load_from_file(Err(String::from("no color key"))),
        Err(String::from("no color key"))
    );
    assert!(!a.is_loaded());
    assert_eq!(a.render(0, 0, None, (3, 1)), None);
}

#[test]
fn axis_is_clipped_to_the_world() {
    assert_eq!(clip_axis(0, 10, 100), (0, 10));
    assert_eq!(clip_axis(-3, 10, 100), (0, 7));
    assert_eq!(clip_axis(95, 10, 100), (95, 100));
    assert_eq!(clip_axis(-20, 10, 100), (0, 0));
    assert_eq!(clip_axis(100, 10, 100), (0, 0));
    assert_eq!(clip_axis(5, 0, 100), (0, 0));
    assert_eq!(clip_axis(i32::MAX, 10, usize::MAX), (2147483647, 2147483657));
    assert_eq!(clip_axis(i32::MIN, u32::MAX, 10), (0, 10));
}

#[test]
fn visible_tiles_skip_what_lies_outside() {
    assert_eq!(
        visible_tiles(Rect { x: -2, y: 1, w: 5, h: 100 }, 10, 10),
        TileRange { x0: 0, x1: 3, y0: 1, y1: 10 }
    );
    assert_eq!(
        visible_tiles(Rect { x: 0, y: 0, w: 100, h: 75 }, 100, 75),
        TileRange { x0: 0, x1: 100, y0: 0, y1: 75 }
    );
    assert_eq!(
        visible_tiles(Rect { x: 20, y: 0, w: 5, h: 5 }, 10, 10),
        TileRange { x0: 0, x1: 0, y0: 0, y1: 0 }
    );
}

#[test]
fn cell_for_follows_the_table() {
    let mut a = sheet();
    assert_eq!(a.cell_for((3, 1)), Some((3, 1)));
    a.set_custom_frame_sequence(Some(vec![(2, 0), (5, 1), (0, 0)]));
    assert_eq!(a.cell_for((1, 9)), Some((5, 1)));
    assert_eq!(a.cell_for((2, 0)), Some((0, 0)));
    assert_eq!(a.cell_for((3, 0)), None);
}

#[test]
fn cell_for_refuses_offsets_beyond_a_rectangle() {
    let a = sheet();
    assert_eq!(a.cell_for((268_435_455, 0)), Some((268_435_455, 0)));
    assert_eq!(a.cell_for((268_435_456, 0)), None);
    assert_eq!(a.cell_for((0, 268_435_456)), None);
    let blank = AnimatedSprite::new();
    assert_eq!(blank.cell_for((usize::MAX, usize::MAX)), Some((usize::MAX, usize::MAX)));
}

#[test]
fn texture_without_failure_reports_nothing() {
    assert_eq!(
        texture_outcome(Ok(()), Ok(())),
        TextureReport { result: Ok(()), log: None }
    );
}

#[test]
fn failed_copy_is_logged_and_fails_nothing() {
    assert_eq!(
        texture_outcome(Err(String::from("no renderer")), Ok(())),
        TextureReport {
            result: Ok(()),
            log: Some(String::from("ERROR: Could not copy texture: no renderer")),
        }
    );
}

#[test]
fn failed_binding_is_the_error() {
    assert_eq!(
        texture_outcome(Ok(()), Err(String::from("not supported"))),
        TextureReport {
            result: Err(String::from("ERROR: Could not draw to new texture: not supported")),
            log: None,
        }
    );
    assert_eq!(
        texture_outcome(Err(String::new()), Err(String::from("x"))),
        TextureReport {
            result: Err(String::from("ERROR: Could not draw to new texture: x")),
            log: Some(String::from("ERROR: Could not copy texture: ")),
        }
    );
}
