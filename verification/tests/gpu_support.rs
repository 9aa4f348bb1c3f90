use oriterm::gpu::compositor::composition_pass::align_up;
use oriterm::gpu::compositor::render_target_pool::{round_up_to_bucket, PooledTargetId, RenderTargetPool};
use oriterm::gpu::frame_input::{cell_in_search_match, FrameSearch, MatchType, SearchMatch, ViewportSize};
use oriterm::gpu::prepare::shaped_frame::ShapedFrame;
use oriterm::gpu::render_target::strip_row_padding;
use oriterm::gpu::renderer::{plan_buffer_upload, BufferUpload};

#[test]
fn align_up_basic() {
    assert_eq!(align_up(80, 256), 256);
    assert_eq!(align_up(256, 256), 256);
    assert_eq!(align_up(257, 256), 512);
    assert_eq!(align_up(1, 1), 1);
    assert_eq!(align_up(0, 256), 0);
}

#[test]
fn viewport_clamps_zero_to_one() {
    let v = ViewportSize::new(0, 0);
    assert_eq!(v.width, 1);
    assert_eq!(v.height, 1);
}

#[test]
fn viewport_preserves_nonzero() {
    let v = ViewportSize::new(1920, 1080);
    assert_eq!(v.width, 1920);
    assert_eq!(v.height, 1080);
}

#[test]
fn strip_padding_no_padding_needed() {
    let width = 64u32;
    let height = 2u32;
    let padded_row = 256u32;
    let mut data = vec![0xAA; padded_row as usize * height as usize];
    data[0] = 0x11;
    data[padded_row as usize] = 0x22;
    let result = strip_row_padding(&data, width, height, padded_row);
    assert_eq!(result.len(), 256 * 2);
    assert_eq!(result[0], 0x11);
    assert_eq!(result[256], 0x22);
}

#[test]
fn strip_padding_removes_trailing_bytes() {
    let width = 2u32;
    let height = 2u32;
    let padded_row = 256u32;
    let unpadded_row = 8u32;
    let mut data = vec![0x00; padded_row as usize * height as usize];
    for i in 0..unpadded_row as usize {
        data[i] = 0xAA;
        data[padded_row as usize + i] = 0xBB;
    }
    let result = strip_row_padding(&data, width, height, padded_row);
    assert_eq!(result.len(), unpadded_row as usize * height as usize);
    assert!(result[..8].iter().all(|&b| b == 0xAA));
    assert!(result[8..16].iter().all(|&b| b == 0xBB));
}

#[test]
fn strip_padding_single_pixel() {
    let width = 1u32;
    let height = 1u32;
    let padded_row = 256u32;
    let mut data = vec![0x00; padded_row as usize];
    data[0] = 0xFF;
    data[1] = 0x80;
    data[2] = 0x40;
    data[3] = 0x20;
    let result = strip_row_padding(&data, width, height, padded_row);
    assert_eq!(result, vec![0xFF, 0x80, 0x40, 0x20]);
}

#[test]
fn bucket_rounding() {
    assert_eq!(round_up_to_bucket(0), 256);
    assert_eq!(round_up_to_bucket(1), 256);
    assert_eq!(round_up_to_bucket(256), 256);
    assert_eq!(round_up_to_bucket(257), 512);
    assert_eq!(round_up_to_bucket(1000), 1024);
    assert_eq!(round_up_to_bucket(1025), 2048);
}

#[test]
fn pool_reuses_released_target_of_same_bucket() {
    let mut pool: RenderTargetPool<(u32, u32)> = RenderTargetPool::new();
    let a = pool.acquire(300, 200, |w, h| (w, h));
    assert_eq!(a, PooledTargetId(0));
    assert_eq!(pool.size(a), (512, 256));
    assert_eq!(*pool.texture(a), (512, 256));
    // A second request while the first is in use allocates anew.
    let b = pool.acquire(400, 100, |w, h| (w, h));
    assert_eq!(b, PooledTargetId(1));
    assert_eq!(pool.active_count(), 2);
    pool.release(a);
    assert_eq!(pool.active_count(), 1);
    // Same bucket: the released texture comes back without a new allocation.
    let c = pool.acquire(500, 256, |_, _| panic!("should reuse"));
    assert_eq!(c, a);
    assert_eq!(pool.total_count(), 2);
}

#[test]
fn pool_trim_drops_unused_targets() {
    let mut pool: RenderTargetPool<u8> = RenderTargetPool::new();
    let a = pool.acquire(10, 10, |_, _| 1);
    let b = pool.acquire(1000, 10, |_, _| 2);
    pool.release(a);
    pool.release(b);
    assert_eq!(pool.total_count(), 2);
    assert_eq!(pool.active_count(), 0);
    pool.trim();
    assert_eq!(pool.total_count(), 0);
    // A fresh acquisition allocates again from index 0.
    let c = pool.acquire(10, 10, |w, _| w as u8);
    assert_eq!(c, PooledTargetId(0));
    assert_eq!(*pool.texture(c), 0);
}

fn m(sr: u64, sc: usize, er: u64, ec: usize) -> SearchMatch {
    SearchMatch { start_row: sr, start_col: sc, end_row: er, end_col: ec }
}

#[test]
fn cell_in_match_single_and_multi_row() {
    let single = m(5, 2, 5, 4);
    assert!(!cell_in_search_match(&single, 5, 1));
    assert!(cell_in_search_match(&single, 5, 2));
    assert!(cell_in_search_match(&single, 5, 4));
    assert!(!cell_in_search_match(&single, 5, 5));
    assert!(!cell_in_search_match(&single, 4, 3));
    let multi = m(3, 6, 5, 1);
    assert!(!cell_in_search_match(&multi, 3, 5));
    assert!(cell_in_search_match(&multi, 3, 6));
    assert!(cell_in_search_match(&multi, 4, 0));
    assert!(cell_in_search_match(&multi, 5, 1));
    assert!(!cell_in_search_match(&multi, 5, 2));
}

#[test]
fn frame_search_classifies_cells() {
    let s = FrameSearch::for_test(vec![m(10, 0, 10, 2), m(10, 5, 10, 7), m(12, 1, 12, 1)], 1, 10);
    assert_eq!(s.cell_match_type(0, 1), MatchType::Match);
    assert_eq!(s.cell_match_type(0, 3), MatchType::NoMatch);
    assert_eq!(s.cell_match_type(0, 6), MatchType::FocusedMatch);
    assert_eq!(s.cell_match_type(1, 6), MatchType::NoMatch);
    assert_eq!(s.cell_match_type(2, 1), MatchType::Match);
    assert_eq!(s.match_count(), 3);
    assert_eq!(s.focused_display(), 2);
    assert_eq!(s.query(), "test");
}

#[test]
fn frame_search_empty() {
    let s = FrameSearch::new(Vec::new(), 0, 0, String::from("abc"));
    assert_eq!(s.cell_match_type(0, 0), MatchType::NoMatch);
    assert_eq!(s.match_count(), 0);
    assert_eq!(s.focused_display(), 0);
    assert_eq!(s.query(), "abc");
}

#[test]
fn shaped_frame_rows_and_column_map() {
    let mut f: ShapedFrame<u32> = ShapedFrame::new(3, 1024);
    f.push_row(&[7, 8], &[Some(0), None, Some(1)]);
    f.push_row(&[9], &[None, Some(0), None]);
    assert_eq!(f.rows(), 2);
    assert_eq!(f.cols(), 3);
    assert_eq!(f.row_glyphs(0), &[7, 8]);
    assert_eq!(f.row_glyphs(1), &[9]);
    assert_eq!(f.col_map(0, 2), Some(1));
    assert_eq!(f.col_map(1, 0), None);
    assert_eq!(f.col_map(1, 1), Some(0));
    assert_eq!(f.all_glyphs(), &[7, 8, 9]);
    assert_eq!(f.size_q6(), 1024);
    f.clear(4, 2048, true);
    assert_eq!(f.rows(), 0);
    assert_eq!(f.cols(), 4);
    assert_eq!(f.size_q6(), 2048);
    assert!(f.hinted());
}

#[test]
fn chrome_origin_aligns_when_viewport_is_logical() {
    // Chrome (caption height 46 logical) above the grid: with a logical
    // viewport, chrome and grid agree in NDC.
    let caption_height = 46.0_f32;
    let scale = 1.25_f32;

    let logical_h = 640_u32;
    let chrome_bottom_ndc = caption_height / logical_h as f32;
    let grid_top_ndc = caption_height / logical_h as f32;
    assert!(
        (chrome_bottom_ndc - grid_top_ndc).abs() < 0.001,
        "logical viewport: chrome={chrome_bottom_ndc}, grid={grid_top_ndc}",
    );

    // With a physical viewport they disagree.
    let physical_h = (logical_h as f32 * scale).round() as u32;
    let chrome_bottom_physical_ndc = (caption_height * scale) / physical_h as f32;
    let grid_top_physical_ndc = caption_height / physical_h as f32;
    assert!(
        chrome_bottom_physical_ndc > grid_top_physical_ndc,
        "physical viewport mismatch: chrome={chrome_bottom_physical_ndc}, grid={grid_top_physical_ndc}",
    );
}

#[test]
fn buffer_upload_skips_empty_data() {
    assert_eq!(plan_buffer_upload(None, 0), BufferUpload::Skip);
    assert_eq!(plan_buffer_upload(Some(4096), 0), BufferUpload::Skip);
}

#[test]
fn buffer_upload_reuses_large_enough_buffer() {
    assert_eq!(plan_buffer_upload(Some(1024), 100), BufferUpload::Write);
    assert_eq!(plan_buffer_upload(Some(1024), 1024), BufferUpload::Write);
}

#[test]
fn buffer_upload_grows_to_power_of_two() {
    assert_eq!(plan_buffer_upload(None, 10), BufferUpload::Recreate { size: 256 });
    assert_eq!(plan_buffer_upload(None, 256), BufferUpload::Recreate { size: 256 });
    assert_eq!(plan_buffer_upload(None, 257), BufferUpload::Recreate { size: 512 });
    assert_eq!(plan_buffer_upload(Some(100), 1000), BufferUpload::Recreate { size: 1024 });
    assert_eq!(plan_buffer_upload(Some(1023), 1024), BufferUpload::Recreate { size: 1024 });
    assert_eq!(plan_buffer_upload(None, 80 * 1920), BufferUpload::Recreate { size: 262144 });
    assert_eq!(plan_buffer_upload(None, 1 << 63), BufferUpload::Recreate { size: 1 << 63 });
}

#[test]
fn shaped_rows_concatenate_to_all_glyphs() {
    let mut f: ShapedFrame<u16> = ShapedFrame::new(2, 896);
    f.push_row(&[1, 2, 3], &[Some(0), Some(2)]);
    f.push_row(&[], &[None, None]);
    f.push_row(&[4], &[None, Some(0)]);
    assert_eq!(f.rows(), 3);
    let mut joined: Vec<u16> = Vec::new();
    for r in 0..f.rows() {
        joined.extend_from_slice(f.row_glyphs(r));
    }
    assert_eq!(joined.as_slice(), f.all_glyphs());
    f.clear(2, 896, true);
    assert_eq!(f.rows(), 0);
    assert!(f.all_glyphs().is_empty());
}
