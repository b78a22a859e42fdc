use bootstrap::config::ChromeVariant;
use bootstrap::config::Platform;
use bootstrap::config::Rgba;
use bootstrap::config::TitleBarStyle;
use bootstrap::config::WindowBuilder;
use bootstrap::config::background_patch;
use bootstrap::config::main_window_config;

const WHITE: Rgba = Rgba { red: 255, green: 255, blue: 255, alpha: 255 };

#[test]
fn main_window_is_fixed_on_every_platform() {
    let combos = [
        (Platform::MacOs, ChromeVariant::Overlay),
        (Platform::MacOs, ChromeVariant::Transparent),
        (Platform::Other, ChromeVariant::Overlay),
        (Platform::Other, ChromeVariant::Transparent),
    ];
    for (p, v) in combos {
        let c = main_window_config(p, v);
        assert_eq!(c.label, "main");
        assert_eq!(c.title, "");
        assert!(!c.drag_drop_enabled);
        assert_eq!(c.width, 800);
        assert_eq!(c.height, 600);
    }
}

#[test]
fn desktop_title_bar_follows_the_variant() {
    let overlay = main_window_config(Platform::MacOs, ChromeVariant::Overlay);
    assert_eq!(overlay.title_bar_style, TitleBarStyle::Overlay);
    let transparent = main_window_config(Platform::MacOs, ChromeVariant::Transparent);
    assert_eq!(transparent.title_bar_style, TitleBarStyle::Transparent);
}

#[test]
fn other_platforms_keep_the_stock_title_bar() {
    let a = main_window_config(Platform::Other, ChromeVariant::Overlay);
    assert_eq!(a.title_bar_style, TitleBarStyle::Visible);
    let b = main_window_config(Platform::Other, ChromeVariant::Transparent);
    assert_eq!(b.title_bar_style, TitleBarStyle::Visible);
}

#[test]
fn background_patch_is_opaque_white_on_the_transparent_desktop_build() {
    assert_eq!(
        background_patch(Platform::MacOs, ChromeVariant::Transparent),
        Some(WHITE)
    );
}

#[test]
fn background_patch_is_absent_everywhere_else() {
    assert_eq!(background_patch(Platform::MacOs, ChromeVariant::Overlay), None);
    assert_eq!(background_patch(Platform::Other, ChromeVariant::Overlay), None);
    assert_eq!(background_patch(Platform::Other, ChromeVariant::Transparent), None);
}

#[test]
fn builder_starts_from_the_stock_descriptor() {
    let b = WindowBuilder::new("main");
    assert_eq!(b.cfg.label, "main");
    assert_eq!(b.cfg.title, "");
    assert!(b.cfg.drag_drop_enabled);
    assert_eq!(b.cfg.width, 800);
    assert_eq!(b.cfg.height, 600);
    assert_eq!(b.cfg.title_bar_style, TitleBarStyle::Visible);
}

#[test]
fn builder_setters_change_one_thing_each() {
    let c = WindowBuilder::new("main")
        .title("")
        .disable_drag_drop_handler()
        .inner_size(800, 600)
        .title_bar_style(TitleBarStyle::Overlay)
        .build();
    assert_eq!(c.label, "main");
    assert_eq!(c.title, "");
    assert!(!c.drag_drop_enabled);
    assert_eq!(c.width, 800);
    assert_eq!(c.height, 600);
    assert_eq!(c.title_bar_style, TitleBarStyle::Overlay);

    let d = WindowBuilder::new("main").inner_size(1024, 768).build();
    assert_eq!(d.width, 1024);
    assert_eq!(d.height, 768);
    assert_eq!(d.title, "");
    assert_eq!(d.title_bar_style, TitleBarStyle::Visible);
}
