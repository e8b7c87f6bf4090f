use shotgun::buffer::{Pixel, RgbaBuffer};
use shotgun::capture::{finish_capture, resolve_selection, target_window, Selection};
use shotgun::error::{CaptureError, ScreenEnumerationFailed};
use shotgun::rect::{LocalRect, Rect};

fn r(x: i32, y: i32, w: u32, h: u32) -> Rect {
    Rect { x, y, w, h }
}

fn source(w: u32, h: u32) -> RgbaBuffer {
    let rows = (0..h)
        .map(|y| (0..w).map(|x| Pixel { r: x as u8, g: y as u8, b: 9, a: 255 }).collect())
        .collect();
    RgbaBuffer::from_rows(w, h, rows).unwrap()
}

#[test]
fn single_monitor_root_without_geometry_is_unmasked() {
    let root = r(0, 0, 16, 12);
    let sel = resolve_selection(&root, None).unwrap();
    assert_eq!(sel, Selection { root, local: LocalRect { x: 0, y: 0, w: 16, h: 12 } });
    let (out, warned) =
        finish_capture(Some(source(16, 12)), &sel, true, &Ok(vec![root])).unwrap();
    assert!(!warned);
    assert_eq!((out.width, out.height), (16, 12));
    assert_eq!(out.rows, source(16, 12).rows);
}

#[test]
fn geometry_outside_window_is_empty_selection() {
    let window = r(100, 100, 50, 50);
    assert_eq!(resolve_selection(&window, Some("10x10+0+0")), Err(CaptureError::EmptySelection));
    assert_eq!(resolve_selection(&window, Some("10x10+150+100")), Err(CaptureError::EmptySelection));
}

#[test]
fn geometry_is_clipped_and_made_window_relative() {
    let window = r(100, 100, 50, 50);
    let sel = resolve_selection(&window, Some("40x40+130+90")).unwrap();
    assert_eq!(sel.root, r(130, 100, 20, 30));
    assert_eq!(sel.local, LocalRect { x: 30, y: 0, w: 20, h: 30 });
}

#[test]
fn bad_geometry_is_reported() {
    let window = r(0, 0, 50, 50);
    assert_eq!(resolve_selection(&window, Some("bogus")), Err(CaptureError::InvalidGeometry));
}

#[test]
fn unconvertible_capture_fails() {
    let sel = resolve_selection(&r(0, 0, 4, 4), None).unwrap();
    assert_eq!(
        finish_capture(None, &sel, true, &Ok(vec![])).err(),
        Some(CaptureError::UnsupportedPixelFormat)
    );
}

#[test]
fn failed_screen_enumeration_warns_and_keeps_buffer() {
    let root = r(0, 0, 8, 6);
    let sel = resolve_selection(&root, None).unwrap();
    let (out, warned) =
        finish_capture(Some(source(8, 6)), &sel, true, &Err(ScreenEnumerationFailed)).unwrap();
    assert!(warned);
    assert_eq!(out.rows, source(8, 6).rows);
}

#[test]
fn multi_monitor_root_is_masked() {
    let root = r(0, 0, 8, 6);
    let sel = resolve_selection(&root, None).unwrap();
    let screens = vec![r(0, 0, 8, 3), r(0, 3, 4, 3)];
    let (out, warned) = finish_capture(Some(source(8, 6)), &sel, true, &Ok(screens)).unwrap();
    assert!(!warned);
    assert_eq!(out.pixel(7, 5), Pixel { r: 0, g: 0, b: 0, a: 0 });
    assert_eq!(out.pixel(3, 5), source(8, 6).pixel(3, 5));
}

#[test]
fn window_other_than_root_is_never_masked() {
    // A window as large as the whole root is still not masked.
    let root = r(0, 0, 8, 6);
    let sel = resolve_selection(&root, None).unwrap();
    let screens = vec![r(0, 0, 8, 3), r(0, 3, 4, 3)];
    let (out, warned) = finish_capture(Some(source(8, 6)), &sel, false, &Ok(screens)).unwrap();
    assert!(!warned);
    assert_eq!(out.rows, source(8, 6).rows);
}

#[test]
fn default_target_is_root() {
    assert_eq!(target_window(None, 42), 42);
    assert_eq!(target_window(Some(7), 42), 7);
}

#[test]
fn error_messages() {
    assert_eq!(CaptureError::InvalidGeometry.message(), "Invalid geometry");
    assert!(CaptureError::UnsupportedPixelFormat.message().contains("24/32"));
}
