use oriterm::gpu::builtin_glyphs::decorations;
use oriterm::gpu::builtin_glyphs::{builtin_family, is_builtin, raster_key, rasterize, BuiltinFamily, Canvas, FaceIdx, GlyphFormat};

#[test]
fn is_builtin_box_drawing_range() {
    for c in '\u{2500}'..='\u{257F}' {
        assert!(is_builtin(c), "U+{:04X} should be builtin", c as u32);
    }
}

#[test]
fn is_builtin_block_elements_range() {
    for c in '\u{2580}'..='\u{259F}' {
        assert!(is_builtin(c), "U+{:04X} should be builtin", c as u32);
    }
}

#[test]
fn is_builtin_braille_range() {
    for c in '\u{2800}'..='\u{28FF}' {
        assert!(is_builtin(c), "U+{:04X} should be builtin", c as u32);
    }
}

#[test]
fn is_builtin_powerline_handled_codepoints() {
    let handled = ['\u{E0B0}', '\u{E0B1}', '\u{E0B2}', '\u{E0B3}', '\u{E0B4}', '\u{E0B6}'];
    for &c in &handled {
        assert!(is_builtin(c), "U+{:04X} should be builtin", c as u32);
    }
}

#[test]
fn is_builtin_excludes_powerline_icons() {
    for c in '\u{E0A0}'..='\u{E0A3}' {
        assert!(!is_builtin(c), "U+{:04X} should NOT be builtin (icon)", c as u32);
    }
    assert!(!is_builtin('\u{E0B5}'), "U+E0B5 should NOT be builtin");
    assert!(!is_builtin('\u{E0B7}'), "U+E0B7 should NOT be builtin");
    assert!(!is_builtin('\u{E0D4}'), "U+E0D4 should NOT be builtin");
}

#[test]
fn is_builtin_excludes_normal_chars() {
    assert!(!is_builtin('A'));
    assert!(!is_builtin(' '));
    assert!(!is_builtin('0'));
    assert!(!is_builtin('\u{4E00}'));
    assert!(!is_builtin('\u{1F600}'));
}

#[test]
fn is_builtin_excludes_gap_between_ranges() {
    assert!(!is_builtin('\u{25A0}'));
    assert!(!is_builtin('\u{27FF}'));
    assert!(!is_builtin('\u{2900}'));
    assert!(!is_builtin('\u{E0AF}'));
}

#[test]
fn raster_key_uses_builtin_face() {
    let key = raster_key('─', 1024);
    assert_eq!(key.face_idx, FaceIdx::builtin());
    assert_eq!(key.glyph_id, '─' as u16);
    assert_eq!(key.size_q6, 1024);
}

#[test]
fn raster_key_different_chars_different_keys() {
    let k1 = raster_key('\u{2500}', 1024);
    let k2 = raster_key('\u{2502}', 1024);
    assert_ne!(k1.glyph_id, k2.glyph_id);
}

#[test]
fn canvas_dimensions() {
    let canvas = Canvas::new(10, 20);
    assert_eq!(canvas.width(), 10);
    assert_eq!(canvas.height(), 20);
}

#[test]
fn canvas_fill_rect_clips() {
    let mut canvas = Canvas::new(8, 8);
    // The end edges lie past the canvas: they are clipped.
    canvas.fill_rect(0, 0, 12, 12, 255);
    let glyph = canvas.into_rasterized_glyph();
    assert!(glyph.bitmap.iter().all(|&b| b == 255));
}

#[test]
fn canvas_fill_rect_covers_half_open_range() {
    let mut canvas = Canvas::new(4, 4);
    canvas.fill_rect(1, 1, 3, 2, 100);
    let g = canvas.into_rasterized_glyph();
    let expected: Vec<u8> = vec![
        0, 0, 0, 0, //
        0, 100, 100, 0, //
        0, 0, 0, 0, //
        0, 0, 0, 0,
    ];
    assert_eq!(g.bitmap, expected);
}

#[test]
fn canvas_blend_pixel_saturates() {
    let mut canvas = Canvas::new(4, 4);
    canvas.blend_pixel(1, 1, 200);
    canvas.blend_pixel(1, 1, 200);
    assert_eq!(canvas.get(1, 1), 255);
}

#[test]
fn canvas_blend_pixel_adds() {
    let mut canvas = Canvas::new(4, 4);
    canvas.blend_pixel(2, 3, 40);
    canvas.blend_pixel(2, 3, 50);
    assert_eq!(canvas.get(2, 3), 90);
    assert_eq!(canvas.get(3, 2), 0);
}

#[test]
fn canvas_blend_pixel_out_of_bounds() {
    let mut canvas = Canvas::new(4, 4);
    canvas.blend_pixel(-1, 0, 255);
    canvas.blend_pixel(0, -1, 255);
    canvas.blend_pixel(4, 0, 255);
    canvas.blend_pixel(0, 4, 255);
    let g = canvas.into_rasterized_glyph();
    assert!(g.bitmap.iter().all(|&b| b == 0));
}

#[test]
fn canvas_into_rasterized_glyph_format() {
    let canvas = Canvas::new(8, 16);
    let glyph = canvas.into_rasterized_glyph();
    assert_eq!(glyph.width, 8);
    assert_eq!(glyph.height, 16);
    assert_eq!(glyph.bearing_x, 0);
    assert_eq!(glyph.bearing_y, 0);
    assert_eq!(glyph.format, GlyphFormat::Alpha);
    assert_eq!(glyph.bitmap.len(), 8 * 16);
}

#[test]
fn decoration_key_uses_builtin_face() {
    let key = decorations::decoration_key(decorations::CURLY_GLYPH_ID, 1024);
    assert_eq!(key.face_idx, FaceIdx::builtin());
    assert_eq!(key.glyph_id, decorations::CURLY_GLYPH_ID);
}

#[test]
fn decoration_keys_are_distinct() {
    let k1 = decorations::decoration_key(decorations::CURLY_GLYPH_ID, 1024);
    let k2 = decorations::decoration_key(decorations::DOTTED_GLYPH_ID, 1024);
    let k3 = decorations::decoration_key(decorations::DASHED_GLYPH_ID, 1024);
    assert_ne!(k1.glyph_id, k2.glyph_id);
    assert_ne!(k2.glyph_id, k3.glyph_id);
}

#[test]
fn rasterize_dotted_produces_bitmap() {
    // An 8px cell with a 1px stroke.
    let glyph = decorations::rasterize_dotted(8, 1).expect("dotted should rasterize");
    assert_eq!(glyph.width, 8);
    assert!(glyph.height > 0);
    let filled_cols: usize = (0..glyph.width as usize).filter(|&x| glyph.bitmap[x] > 0).count();
    assert_eq!(filled_cols, 4, "dotted: 4 of 8 columns should be filled (step_by 2)");
}

#[test]
fn rasterize_dashed_produces_bitmap() {
    let glyph = decorations::rasterize_dashed(8, 1).expect("dashed should rasterize");
    assert_eq!(glyph.width, 8);
    assert!(glyph.height > 0);
    let filled_cols: usize = (0..glyph.width as usize).filter(|&x| glyph.bitmap[x] > 0).count();
    assert_eq!(filled_cols, 6, "dashed: 6 of 8 columns should be filled (3-on-2-off)");
}

#[test]
fn rasterize_zero_width_returns_none() {
    // A cell width that rounds to 0.
    assert!(decorations::rasterize_dotted(0, 1).is_none());
    assert!(decorations::rasterize_dashed(0, 1).is_none());
}

#[test]
fn rasterize_dashed_exact_pattern() {
    let glyph = decorations::rasterize_dashed(12, 2).unwrap();
    assert_eq!(glyph.height, 2);
    let row: Vec<u8> = glyph.bitmap[0..12].to_vec();
    assert_eq!(row, vec![255, 255, 255, 0, 0, 255, 255, 255, 0, 0, 255, 255]);
    assert_eq!(glyph.bitmap[12..24].to_vec(), row);
}

fn no_drawer(_: BuiltinFamily, ch: char, _: Canvas) -> (Canvas, bool) {
    panic!("no drawer should run for {ch:?}")
}

#[test]
fn rasterize_returns_none_for_ascii() {
    assert!(rasterize('A', 8, 16, no_drawer).is_none());
    assert!(rasterize(' ', 8, 16, no_drawer).is_none());
}

#[test]
fn rasterize_returns_none_for_zero_dimensions() {
    assert!(rasterize('█', 0, 16, no_drawer).is_none());
    assert!(rasterize('█', 8, 0, no_drawer).is_none());
}

#[test]
fn rasterize_powerline_unrecognized_falls_through() {
    // U+E0A0 is in the powerline block but not a handled glyph.
    assert!(rasterize('\u{E0A0}', 8, 16, no_drawer).is_none(), "unrecognized powerline char should return None");
}

#[test]
fn rasterize_dispatches_by_family() {
    let fill = |family: BuiltinFamily, _ch: char, mut c: Canvas| {
        assert_eq!(family, BuiltinFamily::Blocks);
        let (w, h) = (c.width(), c.height());
        c.fill_rect(0, 0, w, h, 255);
        (c, true)
    };
    let glyph = rasterize('\u{2588}', 8, 16, fill).expect("full block");
    assert_eq!((glyph.width, glyph.height, glyph.bearing_x, glyph.bearing_y), (8, 16, 0, 0));
    assert_eq!(glyph.format, GlyphFormat::Alpha);
    assert!(glyph.bitmap.iter().all(|&b| b == 255));

    assert!(rasterize('\u{2500}', 8, 16, |_, _, c| (c, false)).is_none(), "an unhandled character gives none");
    assert_eq!(builtin_family('\u{2800}'), Some(BuiltinFamily::Braille));
    assert_eq!(builtin_family('\u{E0B6}'), Some(BuiltinFamily::Powerline));
    assert_eq!(builtin_family('\u{E0B5}'), None);
}
