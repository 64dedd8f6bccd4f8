use artillery_calc::overlay::{DrawnMarkers, OverlayState};

#[test]
fn overlay_starts_shown_without_markers() {
    let s = OverlayState::new();
    assert!(s.visible);
    assert!(s.show_helpers);
    assert_eq!((s.kv, s.cam, s.target), ((0, 0), (0, 0), (0, 0)));
    assert!(!s.can_locate_target());
    assert!(!s.kv_placed());
}

#[test]
fn overlay_toggle_twice_restores() {
    let mut s = OverlayState::new();
    s.toggle_visible();
    assert!(!s.visible);
    s.toggle_visible();
    assert!(s.visible);
}

#[test]
fn overlay_clear_removes_markers_only() {
    let mut s = OverlayState::new();
    s.place_kv((10, 20));
    s.place_cam((110, 20));
    s.place_target((50, 5));
    s.toggle_visible();
    s.clear_markers();
    assert_eq!((s.kv, s.cam, s.target), ((0, 0), (0, 0), (0, 0)));
    assert!(!s.visible);
    assert!(s.show_helpers);
}

#[test]
fn overlay_scale_from_kv_then_cam() {
    let mut s = OverlayState::new();
    assert_eq!(s.place_kv((100, 500)), None);
    assert_eq!(s.place_cam((300, 480)), Some(200));
}

#[test]
fn overlay_scale_from_cam_then_kv() {
    let mut s = OverlayState::new();
    assert_eq!(s.place_cam((300, 480)), None);
    assert_eq!(s.place_kv((100, 500)), Some(200));
}

#[test]
fn overlay_scale_needs_more_than_one_pixel() {
    let mut s = OverlayState::new();
    s.place_kv((100, 500));
    assert_eq!(s.place_cam((100, 10)), None);
    assert_eq!(s.place_cam((101, 10)), None);
    assert_eq!(s.place_cam((99, 10)), None);
    assert_eq!(s.place_cam((102, 10)), Some(2));
    assert_eq!(s.place_cam((98, 10)), Some(2));
}

#[test]
fn overlay_scale_extreme_columns() {
    let mut s = OverlayState::new();
    s.place_kv((i32::MIN, 1));
    assert_eq!(s.place_cam((i32::MAX, 1)), Some(u32::MAX));
}

#[test]
fn overlay_placing_shows_markers() {
    let mut s = OverlayState::new();
    s.show_helpers = false;
    s.place_target((3, 4));
    assert!(s.show_helpers);
    assert_eq!(s.target, (3, 4));
}

#[test]
fn overlay_target_offset() {
    let mut s = OverlayState::new();
    s.place_kv((100, 500));
    s.place_target((160, 420));
    assert_eq!(s.target_offset(), (60, 80));
    assert!(s.can_locate_target());
}

#[test]
fn overlay_target_offset_extreme() {
    let mut s = OverlayState::new();
    s.kv = (i32::MIN, i32::MAX);
    s.target = (i32::MAX, i32::MIN);
    assert_eq!(s.target_offset(), (u32::MAX as i64, u32::MAX as i64));
}

#[test]
fn overlay_markers_to_draw() {
    let mut s = OverlayState::new();
    assert_eq!(
        s.markers_to_draw(),
        DrawnMarkers { kv: false, cam: false, target: false, link: false }
    );
    s.place_target((5, 5));
    assert_eq!(
        s.markers_to_draw(),
        DrawnMarkers { kv: false, cam: false, target: true, link: false }
    );
    s.place_kv((1, 1));
    assert_eq!(
        s.markers_to_draw(),
        DrawnMarkers { kv: true, cam: false, target: true, link: true }
    );
    s.show_helpers = false;
    assert_eq!(
        s.markers_to_draw(),
        DrawnMarkers { kv: false, cam: false, target: false, link: false }
    );
}

#[test]
fn overlay_marker_on_axis_counts_as_placed() {
    let mut s = OverlayState::new();
    s.place_kv((0, 7));
    assert!(s.markers_to_draw().kv);
    assert!(s.kv_placed());
}
