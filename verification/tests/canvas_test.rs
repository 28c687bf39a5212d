//! Colors, boxes and painted bitmaps.
use leopardwm_overlay::canvas::{bounds_in_range, push_overlay_rects, BitmapLayout, Canvas, LayerUpdate};
use leopardwm_overlay::color::pack_pixel;
use leopardwm_overlay::rect::Rect;

#[test]
fn pixels_are_premultiplied() {
    assert_eq!(pack_pixel(0x00FF8040, 128), 0x80204080);
    assert_eq!(pack_pixel(0x00FF8040, 255), 0xFF4080FF);
    assert_eq!(pack_pixel(0x00FF8040, 0), 0);
    assert_eq!(pack_pixel(0xAB010203, 255), 0xFF030201);
    assert_eq!(pack_pixel(0x00FFFFFF, 1), 0x01010101);
    assert_eq!(pack_pixel(0x00FEFEFE, 1), 0x01000000);
}

#[test]
fn primary_colors_keep_their_names() {
    let blue = push_overlay_rects(&[Rect::new(0, 0, 1, 1)], 0x00FF0000, 255).unwrap();
    assert_eq!(blue, Canvas { x: 0, y: 0, width: 1, height: 1, pixel: 0xFF0000FF });
    let mut pixels = vec![0u32];
    blue.paint(&mut pixels, &[Rect::new(0, 0, 1, 1)]);
    assert_eq!(pixels, vec![0xFF0000FF]);
    assert_eq!(pack_pixel(0x0000FF00, 255), 0xFF00FF00);
    assert_eq!(pack_pixel(0x000000FF, 255), 0xFFFF0000);
}

#[test]
fn more_alpha_lowers_no_byte() {
    for low in 0..255u8 {
        let a = pack_pixel(0x00FF8040, low);
        let b = pack_pixel(0x00FF8040, low + 1);
        for shift in [0, 8, 16, 24] {
            assert!((a >> shift) & 0xFF <= (b >> shift) & 0xFF);
        }
    }
}

#[test]
fn nothing_to_draw() {
    assert_eq!(push_overlay_rects(&[], 0, 255), None);
    assert_eq!(push_overlay_rects(&[Rect::new(5, 5, 0, 10)], 0, 255), None);
    assert_eq!(push_overlay_rects(&[Rect::new(5, 5, 10, -1)], 0, 255), None);
}

#[test]
fn canvas_is_the_box_around_the_rects() {
    let rects = [Rect::new(10, 20, 5, 5), Rect::new(-3, 22, 4, 10)];
    let canvas = push_overlay_rects(&rects, 0x00FF8040, 128).unwrap();
    assert_eq!(
        canvas,
        Canvas { x: -3, y: 20, width: 18, height: 12, pixel: 0x80204080 }
    );
    assert_eq!(canvas.pixel_count(), 216);
    assert_eq!(
        canvas.bitmap_layout(),
        BitmapLayout { width: 18, height: -12, planes: 1, bit_count: 32 }
    );
    assert_eq!(
        canvas.layer_update(),
        LayerUpdate {
            dst_x: -3,
            dst_y: 20,
            cx: 18,
            cy: 12,
            src_x: 0,
            src_y: 0,
            source_constant_alpha: 255,
        }
    );
}

#[test]
fn one_rect_fills_its_canvas() {
    let rects = [Rect::new(7, 8, 3, 2)];
    let canvas = push_overlay_rects(&rects, 0x00FFFFFF, 255).unwrap();
    let mut pixels = vec![0u32; canvas.pixel_count()];
    assert!(canvas.can_paint(&rects));
    canvas.paint(&mut pixels, &rects);
    assert_eq!(pixels, vec![0xFFFFFFFF; 6]);
}

#[test]
fn points_outside_of_the_rects_keep_their_pixels() {
    let rects = [Rect::new(0, 0, 2, 1), Rect::new(3, 1, 1, 2)];
    let canvas = push_overlay_rects(&rects, 0, 255).unwrap();
    let p = 0xFF000000;
    let mut pixels: Vec<u32> = (0..12).collect();
    canvas.paint(&mut pixels, &rects);
    assert_eq!(pixels, vec![p, p, 2, 3, 4, 5, 6, p, 8, 9, 10, p]);
    let once = pixels.clone();
    canvas.paint(&mut pixels, &rects);
    assert_eq!(pixels, once);
}

#[test]
fn overlapping_and_empty_rects() {
    let rects = [Rect::new(0, 0, 2, 2), Rect::new(1, 1, 2, 2), Rect::new(2, 0, 0, 3), Rect::new(2, 0, -2, 1)];
    let canvas = push_overlay_rects(&rects, 0, 1).unwrap();
    assert_eq!((canvas.width, canvas.height), (3, 3));
    let p = 0x01000000;
    let mut pixels = vec![0u32; 9];
    assert!(canvas.can_paint(&rects));
    canvas.paint(&mut pixels, &rects);
    assert_eq!(pixels, vec![p, p, 0, p, p, p, 0, p, p]);
}

#[test]
fn what_lies_outside_of_the_canvas_is_cut_off() {
    let canvas = Canvas { x: 0, y: 0, width: 3, height: 2, pixel: 9 };
    let rects = [Rect::new(-5, -5, 6, 6), Rect::new(2, 1, 50, 50), Rect::new(10, 10, 1, 1)];
    let mut pixels = vec![0u32; 6];
    canvas.paint(&mut pixels, &rects);
    assert_eq!(pixels, vec![9, 0, 0, 0, 0, 9]);
}

#[test]
fn ranges_are_checked() {
    assert!(bounds_in_range(&[]));
    assert!(bounds_in_range(&[Rect::new(0, 0, i32::MAX, i32::MAX)]));
    assert!(bounds_in_range(&[Rect::new(i32::MAX, i32::MIN, 0, 0)]));
    assert!(!bounds_in_range(&[Rect::new(1, 0, i32::MAX, 1)]));
    assert!(!bounds_in_range(&[Rect::new(0, -1, 1, i32::MIN)]));
    assert!(!bounds_in_range(&[Rect::new(i32::MIN, 0, 1, 1), Rect::new(5, 0, 1, 1)]));
    assert!(!bounds_in_range(&[Rect::new(0, i32::MIN, 1, 1), Rect::new(0, 5, 1, 1)]));
}

#[test]
fn offsets_are_checked() {
    let rects = [Rect::new(i32::MIN, 0, 1, 1), Rect::new(i32::MAX, 0, i32::MIN, 1)];
    assert!(bounds_in_range(&rects));
    let canvas = push_overlay_rects(&rects, 0, 0).unwrap();
    assert_eq!(canvas.width, i32::MAX);
    assert!(!canvas.can_paint(&rects));
    assert!(canvas.can_paint(&rects[..1]));
}
