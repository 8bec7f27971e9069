use chafa::geometry::{calc_canvas_geometry, FontRatio, TermSize};

fn half() -> FontRatio {
    FontRatio::new(1, 2)
}

#[test]
fn landscape_on_80_by_24_grid_rounds_down() {
    let term = TermSize::new(80, 24, 0, 0);
    assert_eq!(calc_canvas_geometry(800, 600, half(), false, false, &term), (64, 24));
}

#[test]
fn unknown_grid_uses_default_box() {
    let term = TermSize::unknown();
    assert_eq!(term.grid(), (80, 24));
    assert_eq!(calc_canvas_geometry(800, 600, half(), false, false, &term), (64, 24));
}

#[test]
fn wide_image_keeps_box_width() {
    let term = TermSize::new(80, 24, 0, 0);
    assert_eq!(calc_canvas_geometry(1000, 100, half(), true, false, &term), (80, 4));
}

#[test]
fn tall_image_keeps_box_height() {
    let term = TermSize::new(80, 24, 0, 0);
    assert_eq!(calc_canvas_geometry(100, 1000, half(), true, false, &term), (4, 24));
}

#[test]
fn aspect_kept_within_one_cell() {
    let term = TermSize::new(120, 40, 0, 0);
    let (sw, sh) = (1234i64, 567i64);
    let (w, h) = calc_canvas_geometry(sw as i32, sh as i32, half(), true, false, &term);
    let (w, h) = (w as i64, h as i64);
    // ideal w / h is (sw / sh) * 2
    assert!(w * sh * 1 < (h + 1) * sw * 2);
    assert!(h * sw * 2 < (w + 1) * sh * 1);
    assert!(w <= 120 && h <= 40);
}

#[test]
fn small_image_without_zoom_is_not_enlarged() {
    let term = TermSize::new(80, 24, 0, 0);
    assert_eq!(calc_canvas_geometry(10, 10, half(), false, false, &term), (10, 5));
    assert_eq!(calc_canvas_geometry(10, 10, half(), true, false, &term), (48, 24));
}

#[test]
fn stretch_fills_the_grid() {
    let term = TermSize::new(80, 24, 0, 0);
    assert_eq!(calc_canvas_geometry(800, 600, half(), true, true, &term), (80, 24));
    assert_eq!(calc_canvas_geometry(3, 1000, half(), true, true, &term), (80, 24));
    assert_eq!(calc_canvas_geometry(10, 10, half(), false, true, &term), (80, 24));
    assert_eq!(calc_canvas_geometry(800, 600, FontRatio::new(10, 20), false, true, &term), (80, 24));
    assert_eq!(calc_canvas_geometry(10, 10, half(), false, true, &TermSize::unknown()), (80, 24));
}

#[test]
fn no_zoom_stays_inside_grid() {
    let term = TermSize::new(40, 10, 0, 0);
    for (sw, sh) in [(5000, 20), (20, 5000), (640, 480), (1, 1), (39, 9)] {
        for stretch in [false, true] {
            let (w, h) = calc_canvas_geometry(sw, sh, half(), false, stretch, &term);
            assert!(1 <= w && w <= 40, "{} {}", sw, sh);
            assert!(1 <= h && h <= 10, "{} {}", sw, sh);
        }
    }
}

#[test]
fn very_wide_image_keeps_one_row() {
    let term = TermSize::new(80, 24, 0, 0);
    assert_eq!(calc_canvas_geometry(100000, 1, half(), true, false, &term), (80, 1));
}

#[test]
fn nonpositive_source_counts_as_one_pixel() {
    let term = TermSize::new(80, 24, 0, 0);
    assert_eq!(calc_canvas_geometry(0, -5, half(), false, false, &term), (1, 1));
}

#[test]
fn window_pixels_give_cell_shape() {
    let term = TermSize::new(80, 24, 800, 480);
    assert_eq!(term.cell_geometry(), (10, 20));
    assert_eq!(term.font_ratio(), FontRatio::new(10, 20));
    assert_eq!(calc_canvas_geometry(800, 600, term.font_ratio(), false, false, &term), (64, 24));
}

#[test]
fn missing_window_pixels_give_default_shape() {
    let term = TermSize::new(80, 24, 0, 0);
    assert_eq!(term.width_pixels, -1);
    assert_eq!(term.height_pixels, -1);
    assert_eq!(term.cell_geometry(), (-1, -1));
    assert_eq!(term.font_ratio(), FontRatio::default_ratio());
    assert_eq!(TermSize::unknown().font_ratio(), half());
}
