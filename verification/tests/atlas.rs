use oriterm::gpu::renderer::CombinedAtlasLookup;
use oriterm::gpu::atlas::{GlyphAtlas, GLYPH_PADDING, PAGE_SIZE};
use oriterm::gpu::builtin_glyphs::{FaceIdx, GlyphFormat, RasterKey, RasterizedGlyph, SyntheticFlags};

fn test_glyph(width: u32, height: u32) -> RasterizedGlyph {
    RasterizedGlyph {
        width,
        height,
        bearing_x: 0,
        bearing_y: height as i32,
        format: GlyphFormat::Alpha,
        bitmap: vec![0xFF; (width * height) as usize],
    }
}

fn key_sized(glyph_id: u16, size_q6: u32) -> RasterKey {
    RasterKey { glyph_id, face_idx: FaceIdx(0), size_q6, synthetic: SyntheticFlags::none() }
}

fn test_key(glyph_id: u16) -> RasterKey {
    key_sized(glyph_id, 896)
}

fn atlas() -> GlyphAtlas {
    GlyphAtlas::new(GlyphFormat::Alpha)
}

#[test]
fn atlas_creation_succeeds() {
    let atlas = atlas();
    assert_eq!(atlas.page_count(), 1);
    assert!(atlas.is_empty());
    assert_eq!(atlas.len(), 0);
}

#[test]
fn insert_and_lookup_round_trip() {
    let mut atlas = atlas();
    let key = test_key(65);
    let glyph = test_glyph(8, 14);
    let entry = atlas.insert(key, &glyph);
    assert!(entry.is_some());
    let looked_up = atlas.lookup(key);
    assert!(looked_up.is_some());
    let e = entry.unwrap();
    let l = looked_up.unwrap();
    assert_eq!(e.page, l.page);
    assert_eq!(e.width, 8);
    assert_eq!(e.height, 14);
    assert_eq!(e.bearing_y, 14);
}

#[test]
fn insert_zero_size_returns_none_and_caches_as_empty() {
    let mut atlas = atlas();
    let key = test_key(32);
    let glyph = test_glyph(0, 0);
    assert!(!atlas.is_known_empty(key));
    assert!(atlas.insert(key, &glyph).is_none());
    assert!(atlas.lookup(key).is_none());
    assert!(atlas.is_known_empty(key));
}

#[test]
fn insert_duplicate_returns_cached() {
    let mut atlas = atlas();
    let key = test_key(65);
    let glyph = test_glyph(8, 14);
    let first = atlas.insert(key, &glyph).unwrap();
    let second = atlas.insert(key, &glyph).unwrap();
    assert_eq!(first.x, second.x);
    assert_eq!(first.y, second.y);
    assert_eq!(atlas.len(), 1);
}

#[test]
fn uv_coordinates_are_normalized() {
    // Placements are in page pixels; normalized coordinates are these
    // divided by the page size, so they stay inside the page.
    let mut atlas = atlas();
    let entry = atlas.insert(test_key(65), &test_glyph(8, 14)).unwrap();
    assert!(entry.x + entry.width <= PAGE_SIZE);
    assert!(entry.y + entry.height <= PAGE_SIZE);
    assert_eq!(entry.width, 8);
    assert_eq!(entry.height, 14);
    assert!(!entry.is_color);
}

#[test]
fn clear_resets_atlas_state() {
    let mut atlas = atlas();
    let key = test_key(65);
    atlas.insert(key, &test_glyph(8, 14));
    assert_eq!(atlas.len(), 1);
    atlas.clear();
    assert!(atlas.is_empty());
    assert!(atlas.lookup(key).is_none());
    assert_eq!(atlas.page_count(), 1);
}

#[test]
fn insert_many_glyphs_fits_on_one_page() {
    let mut atlas = atlas();
    for glyph_id in 0x20u16..=0x7Eu16 {
        atlas.insert(test_key(glyph_id), &test_glyph(8, 14));
    }
    assert_eq!(atlas.len(), 95);
    assert_eq!(atlas.page_count(), 1);
}

#[test]
fn insert_triggers_new_page_allocation() {
    let mut atlas = atlas();
    // Padded 201×201: 10 × 10 = 100 per page.
    for i in 0..100u16 {
        atlas.insert(test_key(i), &test_glyph(200, 200));
    }
    assert_eq!(atlas.page_count(), 1);
    let entry = atlas.insert(test_key(100), &test_glyph(200, 200)).unwrap();
    assert_eq!(atlas.page_count(), 2);
    assert_eq!(entry.page, 1);
}

#[test]
fn insert_oversized_glyph_returns_none() {
    let mut atlas = atlas();
    assert!(atlas.insert(test_key(1), &test_glyph(PAGE_SIZE, 1)).is_none());
}

#[test]
fn clear_after_multi_page_resets_to_one_page() {
    let mut atlas = atlas();
    for i in 0..=100u16 {
        atlas.insert(test_key(i), &test_glyph(200, 200));
    }
    assert!(atlas.page_count() >= 2);
    atlas.clear();
    assert!(atlas.is_empty());
    assert_eq!(atlas.page_count(), 1);
}

#[test]
fn glyphs_do_not_overlap() {
    let mut atlas = atlas();
    let sizes = [(8, 14), (16, 20), (12, 12), (10, 18), (24, 30)];
    let mut entries = Vec::new();
    for (i, &(w, h)) in sizes.iter().enumerate() {
        if let Some(entry) = atlas.insert(test_key(i as u16), &test_glyph(w, h)) {
            entries.push(entry);
        }
    }
    for (i, a) in entries.iter().enumerate() {
        for b in entries.iter().skip(i + 1) {
            if a.page != b.page {
                continue;
            }
            let no_overlap = a.x + a.width + GLYPH_PADDING <= b.x
                || b.x + b.width + GLYPH_PADDING <= a.x
                || a.y + a.height + GLYPH_PADDING <= b.y
                || b.y + b.height + GLYPH_PADDING <= a.y;
            assert!(no_overlap, "glyphs {i} and {} overlap", i + 1);
        }
    }
}

#[test]
fn reinsert_after_clear_packs_from_origin() {
    let mut atlas = atlas();
    for i in 0..10u16 {
        atlas.insert(test_key(i), &test_glyph(20, 20));
    }
    assert_eq!(atlas.len(), 10);
    atlas.clear();
    let entry = atlas.insert(test_key(100), &test_glyph(8, 14)).unwrap();
    assert_eq!(entry.page, 0);
    assert_eq!(entry.x, 0);
    assert_eq!(entry.y, 0);
}

#[test]
fn insert_at_max_dimension_succeeds() {
    let mut atlas = atlas();
    let max_dim = PAGE_SIZE - GLYPH_PADDING;
    assert!(atlas.insert(test_key(1), &test_glyph(max_dim, max_dim)).is_some());
}

#[test]
fn insert_one_over_max_dimension_fails() {
    let mut atlas = atlas();
    let over = PAGE_SIZE - GLYPH_PADDING + 1;
    assert!(atlas.insert(test_key(1), &test_glyph(over, 1)).is_none());
    assert!(atlas.insert(test_key(2), &test_glyph(1, over)).is_none());
}

#[test]
fn insert_zero_width_nonzero_height_returns_none() {
    let mut atlas = atlas();
    let key = test_key(1);
    assert!(atlas.insert(key, &test_glyph(0, 14)).is_none());
    assert!(atlas.lookup(key).is_none());
    assert!(atlas.is_known_empty(key));
}

#[test]
fn insert_nonzero_width_zero_height_returns_none() {
    let mut atlas = atlas();
    let key = test_key(1);
    assert!(atlas.insert(key, &test_glyph(8, 0)).is_none());
    assert!(atlas.lookup(key).is_none());
    assert!(atlas.is_known_empty(key));
}

#[test]
fn is_known_empty_false_for_unseen_key() {
    let atlas = atlas();
    assert!(!atlas.is_known_empty(test_key(99)));
}

#[test]
fn is_known_empty_false_for_normal_glyph() {
    let mut atlas = atlas();
    let key = test_key(65);
    atlas.insert(key, &test_glyph(8, 14));
    assert!(!atlas.is_known_empty(key));
}

#[test]
fn clear_resets_empty_keys() {
    let mut atlas = atlas();
    let key = test_key(32);
    atlas.insert(key, &test_glyph(0, 0));
    assert!(atlas.is_known_empty(key));
    atlas.clear();
    assert!(!atlas.is_known_empty(key));
}

#[test]
fn repeated_insert_of_empty_glyph_is_idempotent() {
    let mut atlas = atlas();
    let key = test_key(32);
    let glyph = test_glyph(0, 0);
    for _ in 0..5 {
        assert!(atlas.insert(key, &glyph).is_none());
    }
    assert!(atlas.is_known_empty(key));
    assert_eq!(atlas.len(), 0);
}

#[test]
fn begin_frame_increments_counter() {
    let mut atlas = atlas();
    assert_eq!(atlas.frame_counter(), 0);
    atlas.begin_frame();
    assert_eq!(atlas.frame_counter(), 1);
    atlas.begin_frame();
    assert_eq!(atlas.frame_counter(), 2);
}

#[test]
fn lru_eviction_evicts_oldest_page() {
    let mut atlas = atlas();
    let max_dim = PAGE_SIZE - GLYPH_PADDING;
    for i in 0..4u16 {
        atlas.begin_frame();
        atlas.insert(test_key(i), &test_glyph(max_dim, max_dim));
    }
    assert_eq!(atlas.page_count(), 4);
    atlas.begin_frame();
    let entry = atlas.insert(test_key(10), &test_glyph(8, 14)).unwrap();
    assert_eq!(entry.page, 0);
    assert!(atlas.lookup(test_key(0)).is_none());
    assert!(atlas.lookup(test_key(1)).is_some());
    assert!(atlas.lookup(test_key(2)).is_some());
    assert!(atlas.lookup(test_key(3)).is_some());
}

#[test]
fn lru_eviction_preserves_newer_pages() {
    let mut atlas = atlas();
    let max_dim = PAGE_SIZE - GLYPH_PADDING;
    for i in 0..4u16 {
        atlas.begin_frame();
        atlas.insert(test_key(i), &test_glyph(max_dim, max_dim));
    }
    atlas.begin_frame();
    let page = atlas.lookup(test_key(0)).map(|e| e.page);
    assert!(page.is_some());
    atlas.touch_page(page.unwrap());
    atlas.begin_frame();
    let entry = atlas.insert(test_key(10), &test_glyph(8, 14)).unwrap();
    assert_eq!(entry.page, 1);
    assert!(atlas.lookup(test_key(1)).is_none());
    assert!(atlas.lookup(test_key(0)).is_some());
    assert!(atlas.lookup(test_key(2)).is_some());
    assert!(atlas.lookup(test_key(3)).is_some());
}

#[test]
fn q6_keying_distinct_sizes() {
    let mut atlas = atlas();
    let key_14 = key_sized(65, 896);
    let key_16 = key_sized(65, 1024);
    let e14 = atlas.insert(key_14, &test_glyph(8, 14)).unwrap();
    let e16 = atlas.insert(key_16, &test_glyph(9, 16)).unwrap();
    assert_eq!(atlas.len(), 2);
    assert_ne!(e14.x, e16.x);
    assert_eq!(e14.width, 8);
    assert_eq!(e16.width, 9);
}

#[test]
fn lookup_touch_marks_page_used() {
    let mut atlas = atlas();
    let max_dim = PAGE_SIZE - GLYPH_PADDING;
    for i in 0..4u16 {
        atlas.begin_frame();
        atlas.insert(test_key(i), &test_glyph(max_dim, max_dim));
    }
    atlas.begin_frame();
    assert!(atlas.lookup_touch(test_key(0)).is_some());
    assert!(atlas.lookup_touch(test_key(1)).is_some());
    atlas.begin_frame();
    // Page 2 is now the least recently used.
    let entry = atlas.insert(test_key(20), &test_glyph(4, 4)).unwrap();
    assert_eq!(entry.page, 2);
}

#[test]
fn get_or_insert_rasterizes_once() {
    let mut atlas = atlas();
    let key = test_key(7);
    let first = atlas.get_or_insert(key, || Some(test_glyph(5, 6))).unwrap();
    let second = atlas.get_or_insert(key, || panic!("cached glyph must not be rasterized again"));
    assert_eq!(second, Some(first));
    let empty = test_key(8);
    assert!(atlas.get_or_insert(empty, || Some(test_glyph(0, 3))).is_none());
    assert!(atlas.get_or_insert(empty, || panic!("known empty")).is_none());
}

#[test]
fn color_atlas_marks_entries_color() {
    let mut atlas = GlyphAtlas::new(GlyphFormat::Color);
    let e = atlas.insert(test_key(1), &test_glyph(3, 3)).unwrap();
    assert!(e.is_color);
}

#[test]
fn mark_empty_records_key() {
    let mut atlas = atlas();
    let key = test_key(3);
    atlas.mark_empty(key);
    assert!(atlas.is_known_empty(key));
    assert!(!atlas.is_known_empty(test_key(4)));
}

#[test]
fn combined_lookup_probes_mono_then_subpixel_then_color() {
    let mut mono = GlyphAtlas::new(GlyphFormat::Alpha);
    let mut subpixel = GlyphAtlas::new(GlyphFormat::SubpixelRgb);
    let mut color = GlyphAtlas::new(GlyphFormat::Color);
    let shared = test_key(1);
    let sub_only = test_key(2);
    let color_only = test_key(3);
    let m = mono.insert(shared, &test_glyph(4, 4)).unwrap();
    subpixel.insert(shared, &test_glyph(5, 5)).unwrap();
    let s = subpixel.insert(sub_only, &test_glyph(6, 6)).unwrap();
    let c = color.insert(color_only, &test_glyph(7, 7)).unwrap();
    assert!(c.is_color);
    let lookup = CombinedAtlasLookup { mono: &mono, subpixel: &subpixel, color: &color };
    assert_eq!(lookup.lookup_key(shared), Some(&m), "mono atlas wins");
    assert_eq!(lookup.lookup_key(sub_only), Some(&s));
    assert_eq!(lookup.lookup_key(color_only), Some(&c));
    assert_eq!(lookup.lookup_key(test_key(4)), None);
}
