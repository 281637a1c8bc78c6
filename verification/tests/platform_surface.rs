use ultralight::platform::{
    file_charset, file_mime_type, join_asset_path, mime_or_unknown, AssetTracker,
};
use ultralight::surface::{get_image, swap_red_blue};
use ultralight::{Config, UiString, ViewConfig};

#[test]
fn mime_type_comes_from_the_extension() {
    assert_eq!(file_mime_type("assets/page.html"), "text/html");
    assert_eq!(file_mime_type("style.css"), "text/css");
    assert_eq!(file_mime_type("script.js"), "text/javascript");
}

#[test]
fn unknown_extensions_get_the_unknown_marker() {
    assert_eq!(file_mime_type("archive.zzyyxx"), "application/unknown");
    assert_eq!(file_mime_type("no_extension"), "application/unknown");
    assert_eq!(mime_or_unknown(None), "application/unknown");
    assert_eq!(mime_or_unknown(Some(String::from("text/html"))), "text/html");
}

#[test]
fn asset_paths_join_with_one_separator() {
    assert_eq!(join_asset_path("./assets", "page.html"), "./assets/page.html");
    assert_eq!(join_asset_path("", "x"), "/x");
}

#[test]
fn charset_is_always_utf8() {
    assert_eq!(file_charset(), "utf-8");
}

#[test]
fn asset_tracker_follows_watch_events_and_loads() {
    let mut t = AssetTracker::new();
    assert!(!t.assets_modified());
    t.note_event(false);
    assert!(!t.assets_modified());
    t.note_event(true);
    assert!(t.assets_modified());
    t.note_event(false);
    assert!(t.assets_modified());
    t.mark_loaded();
    assert!(!t.assets_modified());
}

#[test]
fn swap_red_blue_swaps_each_pixel() {
    let bgra = vec![1u8, 2, 3, 4, 5, 6, 7, 8];
    assert_eq!(swap_red_blue(&bgra), vec![3, 2, 1, 4, 7, 6, 5, 8]);
    // Swapping twice gives back the starting buffer.
    assert_eq!(swap_red_blue(&swap_red_blue(&bgra)), bgra);
}

#[test]
fn get_image_wraps_swapped_pixels() {
    let bgra = vec![10u8, 20, 30, 40, 50, 60, 70, 80];
    let img = get_image(2, 1, &bgra).unwrap();
    assert_eq!(img.width(), 2);
    assert_eq!(img.height(), 1);
    assert_eq!(img.into_bytes(), vec![30, 20, 10, 40, 70, 60, 50, 80]);
}

#[test]
fn get_image_refuses_wrong_extents() {
    let bgra = vec![0u8; 8];
    assert!(get_image(3, 1, &bgra).is_none());
    assert!(get_image(1, 1, &bgra).is_none());
    assert!(get_image(2, 1, &bgra).is_some());
}

#[test]
fn config_setters_keep_their_fields() {
    let mut c = Config::default();
    assert!(c.resource_path_prefix.is_none());
    assert!(c.cache_path.is_none());
    c.set_resource_path_prefix(String::from("../resources/"));
    c.set_cache_path(String::from("/tmp/cache"));
    assert_eq!(c.resource_path_prefix.as_deref(), Some("../resources/"));
    assert_eq!(c.cache_path.as_deref(), Some("/tmp/cache"));
}

#[test]
fn view_config_defaults_and_acceleration() {
    let mut v = ViewConfig::default();
    assert!(!v.is_accelerated);
    assert!(v.is_transparent);
    v.set_gpu_accelerated();
    assert!(v.is_accelerated);
}

#[test]
fn ui_string_keeps_its_text() {
    let s = UiString::from(String::from("file:///page.html"));
    assert_eq!(s.as_text(), "file:///page.html");
    assert_eq!(s.text, "file:///page.html");
}
