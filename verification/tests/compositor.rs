use oriterm::gpu::compositor::render_target_pool::PooledTargetId;
use oriterm::gpu::compositor::{GpuCompositor, LayerTargetRequest};

fn req(layer_id: u64, width: u32, height: u32) -> LayerTargetRequest {
    LayerTargetRequest { layer_id, width, height }
}

/// Textures are their bucketed size; bind groups name the size they sample.
fn comp() -> GpuCompositor<(u32, u32), String> {
    GpuCompositor::new()
}

#[test]
fn layer_gets_bucketed_target() {
    let mut c = comp();
    c.ensure_layer_target(&req(7, 300, 100), |w, h| (w, h), |t| format!("{}x{}", t.0, t.1));
    assert_eq!(c.layer_target(7), Some(&(512, 256)));
    assert_eq!(c.layer_bind_group(7).map(|s| s.as_str()), Some("512x256"));
    assert_eq!(c.pool().active_count(), 1);
    assert!(c.layer_target(8).is_none());
}

#[test]
fn large_enough_target_is_kept() {
    let mut c = comp();
    c.ensure_layer_target(&req(1, 500, 500), |w, h| (w, h), |_| String::from("first"));
    c.ensure_layer_target(&req(1, 400, 300), |_, _| panic!("no new texture"), |_| panic!("no new bind group"));
    assert_eq!(c.layer_bind_group(1).map(|s| s.as_str()), Some("first"));
    assert_eq!(c.pool().total_count(), 1);
}

#[test]
fn growing_layer_swaps_target_and_frees_old_one() {
    let mut c = comp();
    c.ensure_layer_target(&req(1, 200, 200), |w, h| (w, h), |_| String::from("small"));
    c.ensure_layer_target(&req(1, 600, 200), |w, h| (w, h), |_| String::from("wide"));
    assert_eq!(c.layer_target(1), Some(&(1024, 256)));
    assert_eq!(c.pool().total_count(), 2);
    assert_eq!(c.pool().active_count(), 1);
    // Another layer of the small size reuses the freed target.
    c.ensure_layer_target(&req(2, 100, 100), |_, _| panic!("reuse expected"), |_| String::from("reused"));
    assert_eq!(c.layer_target(2), Some(&(256, 256)));
    assert_eq!(c.pool().size(PooledTargetId(0)), (256, 256));
    assert_eq!(c.pool().active_count(), 2);
}

#[test]
fn release_and_clear_return_targets() {
    let mut c = comp();
    c.ensure_layer_target(&req(1, 10, 10), |w, h| (w, h), |_| String::new());
    c.ensure_layer_target(&req(2, 10, 10), |w, h| (w, h), |_| String::new());
    c.ensure_layer_target(&req(3, 10, 10), |w, h| (w, h), |_| String::new());
    assert_eq!(c.pool().active_count(), 3);
    c.release_layer_target(2);
    assert!(c.layer_target(2).is_none());
    assert_eq!(c.pool().active_count(), 2);
    c.release_layer_target(99);
    assert_eq!(c.pool().active_count(), 2);
    c.clear_layer_targets();
    assert_eq!(c.pool().active_count(), 0);
    assert_eq!(c.pool().total_count(), 3);
    c.trim_pool();
    assert_eq!(c.pool().total_count(), 0);
}

#[test]
fn clear_drops_bind_groups_and_trim_keeps_them() {
    let mut c = comp();
    c.ensure_layer_target(&req(4, 10, 10), |w, h| (w, h), |_| "four".to_string());
    c.ensure_layer_target(&req(5, 10, 10), |w, h| (w, h), |_| "five".to_string());
    c.clear_layer_targets();
    assert!(c.layer_bind_group(4).is_none());
    assert!(c.layer_bind_group(5).is_none());
    assert!(c.layer_target(4).is_none());
    c.trim_pool();
    assert!(c.layer_bind_group(4).is_none());
    assert_eq!(c.pool().total_count(), 0);
}
