use oriterm::gpu::image_render::{ImageTextureCache, DEFAULT_GPU_MEMORY_LIMIT};

fn cache() -> ImageTextureCache<u32> {
    ImageTextureCache::new()
}

#[test]
fn new_cache_is_empty() {
    let c = cache();
    assert_eq!(c.texture_count(), 0);
    assert_eq!(c.gpu_memory_used(), 0);
    assert_eq!(DEFAULT_GPU_MEMORY_LIMIT, 512 * 1024 * 1024);
}

#[test]
fn upload_accounts_memory_and_reuses_texture() {
    let mut c = cache();
    assert_eq!(*c.ensure_uploaded(1, 10, 20, |w, h| w * h), 200);
    assert_eq!(c.gpu_memory_used(), 800);
    // Second request: cached texture, no new upload.
    assert_eq!(*c.ensure_uploaded(1, 10, 20, |_, _| panic!("already uploaded")), 200);
    assert_eq!(c.gpu_memory_used(), 800);
    assert_eq!(c.get_bind_group(1), Some(&200));
    assert_eq!(c.get_bind_group(2), None);
}

#[test]
fn remove_frees_memory() {
    let mut c = cache();
    c.ensure_uploaded(1, 2, 2, |_, _| 1);
    c.ensure_uploaded(2, 3, 3, |_, _| 2);
    assert_eq!(c.gpu_memory_used(), 16 + 36);
    c.remove(1);
    assert_eq!(c.gpu_memory_used(), 36);
    assert_eq!(c.texture_count(), 1);
    c.remove(1);
    assert_eq!(c.gpu_memory_used(), 36);
}

#[test]
fn evict_unused_drops_stale_textures() {
    let mut c = cache();
    c.begin_frame(); // frame 1
    c.ensure_uploaded(1, 1, 1, |_, _| 1);
    c.begin_frame(); // frame 2
    c.ensure_uploaded(2, 1, 1, |_, _| 2);
    for _ in 0..3 {
        c.begin_frame();
    }
    // Frame 5, threshold 3: cutoff 2, textures last used before frame 2 go.
    c.evict_unused(3);
    assert!(c.get_bind_group(1).is_none());
    assert!(c.get_bind_group(2).is_some());
    assert_eq!(c.gpu_memory_used(), 4);
    // A threshold beyond the frame count keeps everything.
    c.evict_unused(100);
    assert_eq!(c.texture_count(), 1);
}

#[test]
fn evict_over_limit_removes_least_recently_used() {
    let mut c = cache();
    c.begin_frame();
    c.ensure_uploaded(1, 10, 10, |_, _| 1); // 400 bytes, frame 1
    c.begin_frame();
    c.ensure_uploaded(2, 10, 10, |_, _| 2); // frame 2
    c.begin_frame();
    c.ensure_uploaded(3, 10, 10, |_, _| 3); // frame 3
    c.begin_frame();
    c.ensure_uploaded(1, 10, 10, |_, _| panic!("cached")); // touch 1 at frame 4
    c.set_gpu_memory_limit(800);
    // Image 2 is the oldest, then 3.
    assert!(c.get_bind_group(2).is_none());
    assert!(c.get_bind_group(1).is_some());
    assert!(c.get_bind_group(3).is_some());
    assert_eq!(c.gpu_memory_used(), 800);
    c.set_gpu_memory_limit(0);
    assert_eq!(c.texture_count(), 0);
    assert_eq!(c.gpu_memory_used(), 0);
}
