use volt::geometry::{Point, Rect, Region};
use volt::styles::{border_region, text_origin, BorderOffset, Handler, Style, TextMetrics};
use volt::color::Rgba8;

#[test]
fn rect_contains_its_inside_and_its_edges() {
    let r = Rect::from_xywh(0, 0, 200, 50);
    assert!(r.contains(Point { x: 50, y: 25 }));
    assert!(r.contains(Point { x: 0, y: 0 }));
    assert!(r.contains(Point { x: 200, y: 50 }));
    assert!(r.contains(Point { x: 50, y: 50 }));
    assert!(!r.contains(Point { x: 201, y: 50 }));
    assert!(!r.contains(Point { x: 200, y: 51 }));
    assert!(!r.contains(Point { x: -1, y: 0 }));
    assert!(!r.contains(Point { x: 0, y: -1 }));
    assert!(!r.contains(Point { x: 300, y: 300 }));
}

#[test]
fn rect_at_the_limits_does_not_overflow() {
    let r = Rect::from_xywh(i32::MAX, i32::MIN, u32::MAX, u32::MAX);
    assert!(r.contains(Point { x: i32::MAX, y: i32::MAX }));
    assert!(!r.contains(Point { x: i32::MAX - 1, y: 0 }));
    assert_eq!(
        r.region(),
        Region {
            left: 2147483647,
            top: -2147483648,
            right: 2147483647 + 4294967295,
            bottom: -2147483648 + 4294967295,
        }
    );
}

#[test]
fn rect_region_and_centre() {
    let r = Rect::from_xywh(10, 20, 101, 51);
    assert_eq!(r.region(), Region { left: 10, top: 20, right: 111, bottom: 71 });
    assert_eq!(r.center_x(), 60);
    assert_eq!(r.center_y(), 45);
}

#[test]
fn border_outset_grows_by_the_width() {
    let r = Rect::from_xywh(10, 20, 100, 50);
    assert_eq!(
        border_region(r, 4, BorderOffset::Outset),
        Region { left: 6, top: 16, right: 114, bottom: 74 }
    );
}

#[test]
fn border_inset_shrinks_by_the_width() {
    let r = Rect::from_xywh(10, 20, 100, 50);
    assert_eq!(
        border_region(r, 4, BorderOffset::Inset),
        Region { left: 14, top: 24, right: 106, bottom: 66 }
    );
}

#[test]
fn border_center_runs_on_the_bounds() {
    let r = Rect::from_xywh(10, 20, 100, 50);
    assert_eq!(
        border_region(r, 4, BorderOffset::Center),
        Region { left: 10, top: 20, right: 110, bottom: 70 }
    );
}

#[test]
fn border_inset_wider_than_the_box_is_empty() {
    let r = Rect::from_xywh(0, 0, 4, 4);
    let region = border_region(r, 3, BorderOffset::Inset);
    assert_eq!(region, Region { left: 3, top: 3, right: 1, bottom: 1 });
    assert!(region.right < region.left);
}

#[test]
fn border_at_the_limits_does_not_overflow() {
    let r = Rect::from_xywh(i32::MIN, i32::MAX, u32::MAX, u32::MAX);
    let out = border_region(r, u32::MAX, BorderOffset::Outset);
    assert_eq!(out.left, -2147483648i64 - 4294967295);
    assert_eq!(out.bottom, 2147483647i64 + 4294967295 + 4294967295);
    let inset = border_region(r, u32::MAX, BorderOffset::Inset);
    assert_eq!(inset.right, -2147483648i64);
}

#[test]
fn text_is_centred_on_the_box() {
    let r = Rect::from_xywh(0, 0, 200, 50);
    let m = TextMetrics { width: 60, ascent: 12, descent: 4 };
    // x = 100 - 30, y = 25 + (4 - (12 + 4) / 2)
    assert_eq!(text_origin(r, m), (70, 21));
}

#[test]
fn text_origin_with_odd_measures_rounds_down() {
    let r = Rect::from_xywh(-5, 7, 11, 9);
    let m = TextMetrics { width: 7, ascent: 5, descent: 2 };
    // x = (-5 + 5) - 3, y = (7 + 4) + (2 - 3)
    assert_eq!(text_origin(r, m), (-3, 10));
}

#[test]
fn text_origin_without_measures_is_the_centre() {
    let r = Rect::from_xywh(0, 0, 200, 50);
    assert_eq!(text_origin(r, TextMetrics { width: 0, ascent: 0, descent: 0 }), (100, 25));
}

#[test]
fn handler_replaces_what_it_names() {
    let style = Style {
        fill: Rgba8 { r: 1, g: 1, b: 1, a: 255 },
        color: Rgba8 { r: 2, g: 2, b: 2, a: 255 },
        border_color: Rgba8 { r: 3, g: 3, b: 3, a: 255 },
        border_width: 2,
        border_offset: BorderOffset::Inset,
        radius: 10,
    };
    assert_eq!(Handler::noop().apply(style), style);
    let red = Rgba8 { r: 255, g: 0, b: 0, a: 255 };
    assert_eq!(Handler::set_fill(red).apply(style), Style { fill: red, ..style });
    let h = Handler {
        fill: None,
        color: Some(red),
        border_color: Some(red),
        border_width: Some(7),
        radius: Some(0),
    };
    assert_eq!(
        h.apply(style),
        Style { color: red, border_color: red, border_width: 7, radius: 0, ..style }
    );
}
