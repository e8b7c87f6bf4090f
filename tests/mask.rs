use shotgun::buffer::{Pixel, RgbaBuffer};
use shotgun::mask::{mask_offscreen, overlapping_screens};
use shotgun::rect::Rect;

fn r(x: i32, y: i32, w: u32, h: u32) -> Rect {
    Rect { x, y, w, h }
}

fn source(w: u32, h: u32) -> RgbaBuffer {
    let rows = (0..h)
        .map(|y| (0..w).map(|x| Pixel { r: x as u8, g: y as u8, b: 7, a: 255 }).collect())
        .collect();
    RgbaBuffer::from_rows(w, h, rows).unwrap()
}

fn zero() -> Pixel {
    Pixel { r: 0, g: 0, b: 0, a: 0 }
}

#[test]
fn no_screens_leave_buffer_unchanged() {
    let sel = r(0, 0, 8, 6);
    let out = mask_offscreen(source(8, 6), &sel, &vec![]);
    assert_eq!(out.rows, source(8, 6).rows);
    assert_eq!((out.width, out.height), (8, 6));
}

#[test]
fn one_overlapping_screen_leaves_buffer_unchanged() {
    let sel = r(0, 0, 8, 6);
    // The second screen lies outside the selection.
    let screens = vec![r(0, 0, 4, 4), r(8, 0, 4, 4)];
    let out = mask_offscreen(source(8, 6), &sel, &screens);
    assert_eq!(out.rows, source(8, 6).rows);
    assert_eq!((out.width, out.height), (8, 6));
}

#[test]
fn l_shaped_layout_blanks_uncovered_corner() {
    // Two screens: a wide one on top, a narrow one below its left part.
    let sel = r(0, 0, 8, 6);
    let screens = vec![r(0, 0, 8, 3), r(0, 3, 4, 3)];
    let src = source(8, 6);
    let out = mask_offscreen(source(8, 6), &sel, &screens);
    assert_eq!((out.width, out.height), (8, 6));
    for y in 0..6u32 {
        for x in 0..8u32 {
            let want = if y < 3 || x < 4 { src.pixel(x, y) } else { zero() };
            assert_eq!(out.pixel(x, y), want, "pixel {} {}", x, y);
        }
    }
}

#[test]
fn masking_uses_root_relative_selection() {
    // The selection starts at (10, 10); screens cover its left column band and top row band.
    let sel = r(10, 10, 4, 4);
    let screens = vec![r(0, 0, 12, 12), r(12, 0, 100, 11)];
    let src = source(4, 4);
    let out = mask_offscreen(source(4, 4), &sel, &screens);
    for y in 0..4u32 {
        for x in 0..4u32 {
            let (px, py) = (10 + x, 10 + y);
            let shown = (px < 12 && py < 12) || (px >= 12 && py < 11);
            let want = if shown { src.pixel(x, y) } else { zero() };
            assert_eq!(out.pixel(x, y), want, "pixel {} {}", x, y);
        }
    }
}

#[test]
fn overlapping_screens_are_clipped() {
    let sel = r(0, 0, 10, 10);
    let screens = vec![r(-5, -5, 10, 10), r(20, 20, 5, 5), r(5, 5, 10, 10)];
    assert_eq!(overlapping_screens(&screens, &sel), vec![r(0, 0, 5, 5), r(5, 5, 5, 5)]);
}

#[test]
fn filled_buffer_and_row_checks() {
    let b = RgbaBuffer::filled(3, 2, zero());
    assert_eq!(b.rows, vec![vec![zero(); 3]; 2]);
    assert!(RgbaBuffer::from_rows(3, 2, vec![vec![zero(); 3], vec![zero(); 2]]).is_none());
    assert!(RgbaBuffer::from_rows(3, 3, vec![vec![zero(); 3]; 2]).is_none());
    assert_eq!(Pixel::transparent(), zero());
}
