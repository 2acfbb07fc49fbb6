use skylode_tui::overlay::{centered_rect, Rect};

#[test]
fn a_box_is_centred_within_its_area() {
    let area = Rect::new(0, 0, 80, 24);
    let rect = centered_rect(area, 48, 12);
    assert_eq!(rect, Rect::new(16, 6, 48, 12));
}

#[test]
fn a_box_larger_than_its_area_is_clamped_rather_than_overflowing() {
    let area = Rect::new(0, 0, 40, 10);
    let rect = centered_rect(area, 64, 13);
    assert_eq!(rect, area);
}

#[test]
fn centring_respects_a_non_zero_origin() {
    let area = Rect::new(10, 5, 20, 10);
    let rect = centered_rect(area, 10, 4);
    assert_eq!(rect, Rect::new(15, 8, 10, 4));
}

#[test]
fn an_odd_margin_leaves_the_extra_column_on_the_right() {
    let rect = centered_rect(Rect::new(0, 0, 11, 5), 4, 2);
    assert_eq!(rect, Rect::new(3, 1, 4, 2));
}
