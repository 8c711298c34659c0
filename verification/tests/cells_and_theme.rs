use thaw::signal_watch::WatchedCell;
use thaw::theme::ColorTheme;

#[test]
fn watch_is_not_run_at_registration() {
    let mut cell = WatchedCell::new(0u32);
    let _token = cell.watch(7);
    // Nothing is due until the next write.
    let due = cell.set(1);
    assert_eq!(due, vec![7]);
    assert_eq!(cell.value, 1);
}

#[test]
fn watchers_are_notified_in_registration_order() {
    let mut cell = WatchedCell::new(0u32);
    cell.watch(7);
    cell.watch(8);
    cell.watch(9);
    assert_eq!(cell.set(5), vec![7, 8, 9]);
}

#[test]
fn stopped_watcher_is_silent_and_stop_is_idempotent() {
    let mut cell = WatchedCell::new(0u32);
    let t1 = cell.watch(7);
    let _t2 = cell.watch(8);
    assert_eq!(cell.set(1), vec![7, 8]);
    cell.unwatch(t1);
    assert_eq!(cell.set(2), vec![8]);
    cell.unwatch(t1);
    assert_eq!(cell.set(3), vec![8]);
    // A token that names no watcher changes nothing.
    cell.unwatch(999);
    assert_eq!(cell.set(4), vec![8]);
}

#[test]
fn light_palette_values() {
    let t = ColorTheme::light();
    assert_eq!(t.color_neutral_background_1, "#fff");
    assert_eq!(t.color_neutral_background_disabled, "#f0f0f0");
    assert_eq!(t.color_neutral_foreground_1, "#242424");
    assert_eq!(t.color_brand_background, "#0f6cbd");
    assert_eq!(t.color_brand_background_pressed, "#0c3b5e");
    assert_eq!(t.color_subtle_background, "transparent");
    assert_eq!(t.color_neutral_stroke_accessible, "#616161");
}

#[test]
fn dark_palette_values() {
    let t = ColorTheme::dark();
    assert_eq!(t.color_neutral_background_1, "#292929");
    assert_eq!(t.color_neutral_background_disabled, "#141414");
    assert_eq!(t.color_neutral_foreground_1, "#fff");
    assert_eq!(t.color_brand_background, "#115ea3");
    assert_eq!(t.color_brand_background_hover, "#0f6cbd");
    assert_eq!(t.color_neutral_stroke_1, "#666666");
    assert_eq!(t.color_transparent_background, "transparent");
}

#[test]
fn light_and_dark_differ_where_they_should() {
    let l = ColorTheme::light();
    let d = ColorTheme::dark();
    assert_ne!(l.color_neutral_background_1, d.color_neutral_background_1);
    assert_ne!(l.color_neutral_foreground_1, d.color_neutral_foreground_1);
    assert_eq!(l.color_brand_background_pressed, d.color_brand_background_pressed);
}
