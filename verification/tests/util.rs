use mini_servo::dummy::{
    DummyFontMetricsProvider, DummyRegisteredSpeculativePainters, FontMetrics, GenericFontFamily,
};
use mini_servo::options::{DebugOptions, WindowSize};
use mini_servo::style::{
    Device, FontMetricsSource, MediaType, PrefersColorScheme, QuirksMode, SharedRwLock,
    SnapshotMap, Stylist, StylesheetGuards,
};
use mini_servo::util::{
    is_angle, make_device, make_shared_style_context, make_stylist, make_webrender, most_workers,
    RendererOptions, RendererPrefs, UploadMethod,
};

#[test]
fn test_make_shared_style_context() {
    let device = make_device(WindowSize::new(800, 600), FontMetricsSource::Dummy);
    let stylist = make_stylist(device);
    let guard = SharedRwLock::new();
    let guards = StylesheetGuards { author: &guard.read(), ua_or_user: &guard.read() };
    let snapshot_map = SnapshotMap::new();
    let registered_speculative_painters = DummyRegisteredSpeculativePainters;

    let shared_style_context = make_shared_style_context(
        &stylist,
        guards,
        &snapshot_map,
        &registered_speculative_painters,
    );
    assert_eq!(*shared_style_context.stylist, stylist);
    assert!(!shared_style_context.visited_styles_enabled);
    assert_eq!(shared_style_context.current_time_for_animations, 0);
    assert_eq!(shared_style_context.traversal_flags, 0);
    assert_eq!(shared_style_context.animations, 0);
    assert_eq!(shared_style_context.snapshot_map.snapshots, 0);
}

#[test]
fn test_make_device_and_stylist() {
    let device = make_device(WindowSize::new(800, 600), FontMetricsSource::Dummy);
    assert_eq!(
        device,
        Device {
            media_type: MediaType::Screen,
            quirks_mode: QuirksMode::NoQuirks,
            viewport_size: WindowSize { width: 800, height: 600 },
            device_pixel_ratio: 1,
            font_metrics: FontMetricsSource::Dummy,
            color_scheme: PrefersColorScheme::Light,
        }
    );
    let stylist = make_stylist(device);
    assert_eq!(stylist, Stylist { device, quirks_mode: QuirksMode::NoQuirks });
    assert_eq!(*stylist.device(), device);
}

#[test]
fn test_options_defaults() {
    assert_eq!(WindowSize::default(), WindowSize { width: 800, height: 600 });
    assert_eq!(
        DebugOptions::default(),
        DebugOptions {
            dump_display_list: false,
            dump_stacking_context_tree: false,
            dump_flow_tree: false
        }
    );
    assert_eq!(
        DebugOptions::all(),
        DebugOptions { dump_display_list: true, dump_stacking_context_tree: true, dump_flow_tree: true }
    );
}

#[test]
fn test_is_angle() {
    assert!(is_angle("ANGLE"));
    assert!(is_angle("ANGLE (Intel, Mesa Intel(R) UHD Graphics)"));
    assert!(!is_angle("ANGL"));
    assert!(!is_angle(""));
    assert!(!is_angle("angle (lower case)"));
    assert!(!is_angle(" ANGLE"));
    assert!(!is_angle("Mesa Intel(R) UHD Graphics ANGLE"));
    assert!(!is_angle("ANGLÉ"));
}

fn prefs(fallback: i64, most: i64) -> RendererPrefs {
    RendererPrefs {
        threadpools_fallback_worker_num: fallback,
        threadpools_webrender_workers_max: most,
        gfx_precache_shaders: false,
        gfx_text_antialiasing_enabled: true,
        gfx_subpixel_text_antialiasing_enabled: true,
        gfx_texture_swizzling_enabled: false,
    }
}

#[test]
fn test_make_webrender_options() {
    let options = make_webrender("Mesa", Some(8), &prefs(3, 4));
    assert_eq!(
        options,
        RendererOptions {
            use_optimized_shaders: true,
            profiler_overlay: false,
            precache_shaders: false,
            enable_aa: true,
            enable_subpixel_aa: true,
            allow_texture_swizzling: false,
            upload_method: UploadMethod::PixelBuffer,
            worker_threads: 4,
        }
    );
    let angle = make_webrender("ANGLE (D3D11)", Some(8), &prefs(3, 4));
    assert_eq!(angle.upload_method, UploadMethod::Immediate);
    let flipped = RendererPrefs {
        gfx_precache_shaders: true,
        gfx_text_antialiasing_enabled: false,
        gfx_subpixel_text_antialiasing_enabled: false,
        gfx_texture_swizzling_enabled: true,
        ..prefs(3, 4)
    };
    let options = make_webrender("Mesa", None, &flipped);
    assert!(options.precache_shaders);
    assert!(!options.enable_aa);
    assert!(!options.enable_subpixel_aa);
    assert!(options.allow_texture_swizzling);
    assert!(options.use_optimized_shaders);
    assert!(!options.profiler_overlay);
}

#[test]
fn test_worker_threads() {
    assert_eq!(make_webrender("", Some(8), &prefs(3, 4)).worker_threads, 4);
    assert_eq!(make_webrender("", Some(2), &prefs(3, 4)).worker_threads, 2);
    assert_eq!(make_webrender("", Some(4), &prefs(3, 4)).worker_threads, 4);
    assert_eq!(make_webrender("", None, &prefs(3, 4)).worker_threads, 3);
    assert_eq!(make_webrender("", None, &prefs(9, 4)).worker_threads, 4);
    assert_eq!(make_webrender("", None, &prefs(0, 4)).worker_threads, 0);
    assert_eq!(make_webrender("", Some(0), &prefs(3, 4)).worker_threads, 0);
    // A maximum below one counts as one.
    assert_eq!(make_webrender("", Some(8), &prefs(3, 0)).worker_threads, 1);
    assert_eq!(make_webrender("", None, &prefs(3, 0)).worker_threads, 1);
    assert_eq!(make_webrender("", Some(8), &prefs(3, -5)).worker_threads, 1);
    assert_eq!(make_webrender("", Some(8), &prefs(3, i64::MIN)).worker_threads, 1);
    // A negative fallback counts as more than every maximum.
    assert_eq!(make_webrender("", None, &prefs(-1, 4)).worker_threads, 4);
    assert_eq!(make_webrender("", None, &prefs(i64::MIN, 6)).worker_threads, 6);
    assert_eq!(make_webrender("", None, &prefs(-1, -1)).worker_threads, 1);
    assert_eq!(make_webrender("", Some(usize::MAX), &prefs(3, i64::MAX)).worker_threads, i64::MAX as usize);
}

#[test]
fn test_most_workers() {
    assert_eq!(most_workers(&prefs(0, 4)), 4);
    assert_eq!(most_workers(&prefs(0, 1)), 1);
    assert_eq!(most_workers(&prefs(0, 0)), 1);
    assert_eq!(most_workers(&prefs(0, -3)), 1);
    assert_eq!(most_workers(&prefs(9, i64::MAX)), i64::MAX as usize);
}

#[test]
fn test_dummy_font_metrics_provider() {
    let provider = DummyFontMetricsProvider;
    let none = FontMetrics {
        x_height: None,
        zero_advance_measure: None,
        cap_height: None,
        ic_width: None,
        ascent: 0,
    };
    assert_eq!(provider.query_font_metrics(false, 16), none);
    assert_eq!(provider.query_font_metrics(true, 0), none);
    assert_eq!(FontMetrics::default(), none);
    for generic in [
        GenericFontFamily::Unspecified,
        GenericFontFamily::Serif,
        GenericFontFamily::SansSerif,
        GenericFontFamily::Monospace,
        GenericFontFamily::Cursive,
        GenericFontFamily::Fantasy,
        GenericFontFamily::SystemUi,
    ] {
        assert_eq!(provider.base_size_for_generic(generic), 13);
    }
}

#[test]
fn test_dummy_registered_speculative_painters() {
    let painters = DummyRegisteredSpeculativePainters;
    assert_eq!(painters.get("checkerboard"), None);
    assert_eq!(painters.get(""), None);
}
