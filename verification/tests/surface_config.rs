use viewer3d::compositor::{frame_plan, PassLoad};
use viewer3d::surface::{
    clamped_max_texture_dim, select_format, ConstraintPhase, RenderSurface, Size, SurfaceCaps,
    TextureFormat,
};
use viewer3d::{startup_window_attrs, StartupArgs, WINDOW_HEIGHT, WINDOW_WIDTH};

fn caps() -> SurfaceCaps {
    SurfaceCaps {
        formats: vec![
            TextureFormat { code: 24, srgb: true },
            TextureFormat { code: 18, srgb: false },
            TextureFormat { code: 19, srgb: false },
        ],
        present_modes: vec![2, 0],
        alpha_modes: vec![1, 3],
    }
}

#[test]
fn select_format_prefers_first_linear() {
    let formats = vec![
        TextureFormat { code: 24, srgb: true },
        TextureFormat { code: 18, srgb: false },
        TextureFormat { code: 19, srgb: false },
    ];
    assert_eq!(select_format(&formats), TextureFormat { code: 18, srgb: false });
}

#[test]
fn select_format_falls_back_to_first_when_all_srgb() {
    let formats = vec![
        TextureFormat { code: 24, srgb: true },
        TextureFormat { code: 25, srgb: true },
    ];
    assert_eq!(select_format(&formats), TextureFormat { code: 24, srgb: true });
}

#[test]
fn select_format_single_linear() {
    let formats = vec![TextureFormat { code: 18, srgb: false }];
    assert_eq!(select_format(&formats), TextureFormat { code: 18, srgb: false });
}

#[test]
fn clamped_max_texture_dim_takes_the_smaller() {
    assert_eq!(clamped_max_texture_dim(8192, 2048), 2048);
    assert_eq!(clamped_max_texture_dim(1024, 2048), 1024);
    assert_eq!(clamped_max_texture_dim(4096, 4096), 4096);
}

#[test]
fn create_configures_from_capabilities() {
    let s = RenderSurface::create(&caps(), Size { width: 1280, height: 720 });
    assert_eq!(s.size, Size { width: 1280, height: 720 });
    assert_eq!(s.config.width, 1280);
    assert_eq!(s.config.height, 720);
    assert_eq!(s.config.format, TextureFormat { code: 18, srgb: false });
    assert_eq!(s.config.present_mode, 2);
    assert_eq!(s.config.alpha_mode, 1);
    assert_eq!(s.config.frame_latency, 2);
    assert_eq!(s.phase, ConstraintPhase::Pinned);
}

#[test]
fn reconfigure_zero_width_is_a_noop() {
    let mut s = RenderSurface::create(&caps(), Size { width: 1280, height: 720 });
    let before = s;
    assert!(!s.reconfigure(Size { width: 0, height: 600 }));
    assert_eq!(s, before);
}

#[test]
fn reconfigure_zero_height_is_a_noop() {
    let mut s = RenderSurface::create(&caps(), Size { width: 1280, height: 720 });
    let before = s;
    assert!(!s.reconfigure(Size { width: 800, height: 0 }));
    assert_eq!(s, before);
}

#[test]
fn reconfigure_zero_both_is_a_noop() {
    let mut s = RenderSurface::create(&caps(), Size { width: 1280, height: 720 });
    let before = s;
    assert!(!s.reconfigure(Size { width: 0, height: 0 }));
    assert_eq!(s, before);
}

#[test]
fn reconfigure_positive_updates_size_and_config() {
    let mut s = RenderSurface::create(&caps(), Size { width: 1280, height: 720 });
    assert!(s.reconfigure(Size::new(800, 600)));
    assert_eq!(s.size, Size { width: 800, height: 600 });
    assert_eq!(s.config.width, 800);
    assert_eq!(s.config.height, 600);
    assert_eq!(s.config.format, TextureFormat { code: 18, srgb: false });
    assert_eq!(s.config.present_mode, 2);
    assert_eq!(s.config.alpha_mode, 1);
    assert_eq!(s.config.frame_latency, 2);
}

#[test]
fn reconfigure_is_idempotent() {
    let mut s = RenderSurface::create(&caps(), Size { width: 1280, height: 720 });
    assert!(s.reconfigure(Size { width: 800, height: 600 }));
    let once = s;
    assert!(s.reconfigure(Size { width: 800, height: 600 }));
    assert_eq!(s, once);
}

#[test]
fn frame_plan_is_one_clear_pass_then_one_ui_pass() {
    let s = RenderSurface::create(&caps(), Size { width: 1280, height: 720 });
    let plan = frame_plan(&s);
    assert_eq!(plan.clear_pass.load, PassLoad::ClearToBackground);
    assert!(plan.clear_pass.store);
    assert_eq!(plan.ui_pass.load, PassLoad::Load);
    assert!(plan.ui_pass.store);
    assert_eq!(plan.size_in_pixels, Size { width: 1280, height: 720 });
    assert!(plan.present);
}

#[test]
fn startup_window_is_visible_and_pinned_to_fixed_size() {
    let attrs = startup_window_attrs();
    assert!(attrs.visible);
    assert_eq!(attrs.size, Size { width: WINDOW_WIDTH, height: WINDOW_HEIGHT });
    assert_eq!(attrs.size, Size { width: 1280, height: 720 });
    assert_eq!(attrs.min_size, Some(attrs.size));
    assert_eq!(attrs.max_size, Some(attrs.size));
}

#[test]
fn startup_args_default_has_no_file() {
    let args = StartupArgs::new();
    assert!(args.file.is_none());
}
