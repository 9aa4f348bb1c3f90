use oriterm::gpu::pipeline::{instance_attrs, InstanceKind, VertexFormat, INSTANCE_SIZE, INSTANCE_STRIDE};
use oriterm::gpu::state::{
    cache_dir, cache_dir_windows, pick_adapter, select_alpha_mode, supports_transparency, surface_extent, uses_view_format, AdapterCandidate, AlphaMode,
    GpuInitError, SurfaceError,
};

#[test]
fn instance_size_is_80_bytes() {
    assert_eq!(INSTANCE_SIZE, 80);
}

#[test]
fn instance_kind_discriminants() {
    assert_eq!(InstanceKind::Rect as u32, 0);
    assert_eq!(InstanceKind::Glyph as u32, 1);
    assert_eq!(InstanceKind::Cursor as u32, 2);
    assert_eq!(InstanceKind::Glyph.code(), 1);
    assert_eq!(InstanceKind::Cursor.code(), 2);
}

#[test]
fn stride_matches_instance_size() {
    assert_eq!(INSTANCE_STRIDE, INSTANCE_SIZE as u64);
}

#[test]
fn attribute_offsets_and_locations() {
    let expected: [(u64, u32); 6] = [(0, 0), (8, 1), (16, 2), (32, 3), (48, 4), (64, 5)];
    let attrs = instance_attrs();
    for (attr, (offset, location)) in attrs.iter().zip(expected.iter()) {
        assert_eq!(attr.offset, *offset, "offset mismatch for location {location}");
        assert_eq!(attr.shader_location, *location, "location mismatch at offset {offset}");
    }
}

#[test]
fn last_attribute_fits_within_stride() {
    let attrs = instance_attrs();
    let last = &attrs[attrs.len() - 1];
    let end = last.offset + last.format.size();
    assert!(end <= INSTANCE_STRIDE, "last attribute ends at byte {end}, but stride is {INSTANCE_STRIDE}");
    assert_eq!(last.shader_location, 6);
    assert_eq!(last.format, VertexFormat::Uint32);
}

#[test]
fn select_alpha_mode_prefers_premultiplied() {
    let modes = [AlphaMode::Opaque, AlphaMode::PostMultiplied, AlphaMode::PreMultiplied];
    assert_eq!(select_alpha_mode(&modes), AlphaMode::PreMultiplied);
}

#[test]
fn select_alpha_mode_falls_back_to_postmultiplied() {
    let modes = [AlphaMode::Opaque, AlphaMode::PostMultiplied];
    assert_eq!(select_alpha_mode(&modes), AlphaMode::PostMultiplied);
}

#[test]
fn select_alpha_mode_falls_back_to_first_available() {
    assert_eq!(select_alpha_mode(&[AlphaMode::Opaque]), AlphaMode::Opaque);
}

#[test]
fn select_alpha_mode_inherit_as_only_option() {
    assert_eq!(select_alpha_mode(&[AlphaMode::Inherit]), AlphaMode::Inherit);
}

#[test]
fn select_alpha_mode_empty_is_opaque() {
    assert_eq!(select_alpha_mode(&[]), AlphaMode::Opaque);
    assert!(!supports_transparency(AlphaMode::Opaque));
    assert!(supports_transparency(AlphaMode::Inherit));
}

fn cand(surface_supported: bool, discrete: bool) -> AdapterCandidate {
    AdapterCandidate { surface_supported, discrete }
}

#[test]
fn pick_adapter_prefers_discrete() {
    let c = [cand(true, false), cand(false, true), cand(true, true), cand(true, true)];
    assert_eq!(pick_adapter(&c), Some(2));
}

#[test]
fn pick_adapter_falls_back_to_first_supported() {
    let c = [cand(false, false), cand(true, false), cand(true, false), cand(false, true)];
    assert_eq!(pick_adapter(&c), Some(1));
    assert_eq!(pick_adapter(&[cand(false, true)]), None);
    assert_eq!(pick_adapter(&[]), None);
}

#[test]
fn surface_config_decisions() {
    assert!(uses_view_format(true, true));
    assert!(!uses_view_format(true, false));
    assert!(!uses_view_format(false, true));
    assert_eq!(surface_extent(0, 0), (1, 1));
    assert_eq!(surface_extent(800, 0), (800, 1));
}

#[test]
fn error_messages() {
    assert_eq!(GpuInitError.message(), "failed to initialize GPU with any backend");
    assert_eq!(SurfaceError::Lost.message(), "surface lost or outdated");
    assert_eq!(SurfaceError::OutOfMemory.message(), "GPU out of memory");
    assert_eq!(SurfaceError::Timeout.message(), "surface timeout");
    assert_eq!(SurfaceError::Other.message(), "surface error");
}

#[test]
fn cache_dir_returns_valid_path() {
    let xdg = cache_dir(Some("/home/u/.xdg-cache".to_string()), Some("/home/u".to_string()));
    assert_eq!(xdg, vec!["/home/u/.xdg-cache".to_string(), "ori_term".to_string()]);

    let home = cache_dir(None, Some("/home/u".to_string()));
    assert_eq!(home, vec!["/home/u".to_string(), ".cache".to_string(), "ori_term".to_string()]);

    let neither = cache_dir(None, None);
    assert_eq!(neither, vec![".".to_string(), "ori_term".to_string()]);

    for dir in [xdg, home, neither] {
        let path: std::path::PathBuf = dir.iter().collect();
        assert!(path.to_string_lossy().contains("ori_term"));
    }
}

#[test]
fn cache_dir_windows_prefers_local_app_data() {
    let local = cache_dir_windows(Some("C:\\Users\\u\\AppData\\Local".to_string()), Some("C:\\Users\\u\\AppData\\Roaming".to_string()));
    assert_eq!(local, vec!["C:\\Users\\u\\AppData\\Local".to_string(), "ori_term".to_string()]);

    let roaming = cache_dir_windows(None, Some("C:\\Users\\u\\AppData\\Roaming".to_string()));
    assert_eq!(roaming, vec!["C:\\Users\\u\\AppData\\Roaming".to_string(), "ori_term".to_string()]);

    let neither = cache_dir_windows(None, None);
    assert_eq!(neither, vec![".".to_string(), "ori_term".to_string()]);
}
