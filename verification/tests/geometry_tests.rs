use webview2wrapper::geometry::{calculate_bounds, Rect};

#[test]
fn letterbox_full_hd_window() {
    // 1600x900 against the 1920x1080 reference at 96 dpi: the aspect ratio
    // already matches, so no margins, and the zoom is exactly 5/6.
    let rect = Rect { left: 0, top: 0, right: 1600, bottom: 900 };
    let (out, zoom) = calculate_bounds(rect, 1920, 1080, 96).unwrap();
    assert_eq!(out, Rect { left: 0, top: 0, right: 1600, bottom: 900 });
    assert_eq!(zoom.num * 6, zoom.den * 5);
    let z = zoom.num as f64 / zoom.den as f64;
    assert!((z - 0.8333333333).abs() < 1e-6);
}

#[test]
fn letterbox_square_window_high_dpi() {
    // 1000x1000 against 1920x1080 at 192 dpi (2x): ratio 1000/1920, zoom
    // halved by the dpi, and a 218-pixel top margin.
    let rect = Rect { left: 0, top: 0, right: 1000, bottom: 1000 };
    let (out, zoom) = calculate_bounds(rect, 1920, 1080, 192).unwrap();
    assert_eq!(out, Rect { left: 0, top: 218, right: 1000, bottom: 782 });
    assert_eq!(zoom.num, 96000);
    assert_eq!(zoom.den, 368640);
    let z = zoom.num as f64 / zoom.den as f64;
    assert!((z - 0.2604166666).abs() < 1e-6);
}

#[test]
fn degenerate_rectangle_is_skipped() {
    let rect = Rect { left: 10, top: 10, right: 10, bottom: 40 };
    assert!(calculate_bounds(rect, 1920, 1080, 96).is_none());
    let rect = Rect { left: 0, top: 50, right: 640, bottom: 50 };
    assert!(calculate_bounds(rect, 1920, 1080, 96).is_none());
}

#[test]
fn offset_wide_window_letterboxes_sides() {
    // A 2160x540 area at (100, 50): the height constrains, ratio 1/2,
    // symmetric 600-pixel margins left and right.
    let rect = Rect { left: 100, top: 50, right: 2260, bottom: 590 };
    let (out, zoom) = calculate_bounds(rect, 1920, 1080, 96).unwrap();
    assert_eq!(out, Rect { left: 700, top: 50, right: 1660, bottom: 590 });
    assert_eq!(zoom.num * 2, zoom.den);
}

#[test]
fn rectangle_from_origin_and_size() {
    let r = Rect::from_origin_size(100, 50, 640, 480);
    assert_eq!(r, Rect { left: 100, top: 50, right: 740, bottom: 530 });
}
