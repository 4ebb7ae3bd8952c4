use cardsheet::guides::guide_lines;
use cardsheet::{LayoutSettings, LineSegment};

#[test]
fn guide_count_is_two_ticks_per_boundary() {
    let l = LayoutSettings::default();
    let segs = guide_lines(&l);
    // 3 columns and 3 rows give 4 boundaries each: 2*4 + 2*4 segments.
    assert_eq!(segs.len(), 16);
}

#[test]
fn first_column_tick_runs_through_the_bottom_margin() {
    let l = LayoutSettings::default();
    let segs = guide_lines(&l);
    let s = &segs[0];
    assert_eq!(s.x1, l.margin_x());
    assert_eq!(s.y1, l.margin_y());
    assert_eq!(s.x2, l.margin_x());
    assert_eq!(s.y2.subunits, 0);
}

#[test]
fn second_column_tick_runs_through_the_top_margin() {
    let l = LayoutSettings::default();
    let segs = guide_lines(&l);
    let s = &segs[1];
    assert_eq!(s.x1, l.margin_x());
    assert_eq!(s.y1.subunits, l.page_height().subunits - l.margin_y().subunits);
    assert_eq!(s.x2, l.margin_x());
    assert_eq!(s.y2, l.page_height());
}

#[test]
fn row_ticks_run_through_the_side_margins() {
    let l = LayoutSettings::default();
    let segs = guide_lines(&l);
    // The first row tick follows the 2*(columns+1) vertical ticks.
    let s = &segs[8];
    assert_eq!(s.x1.subunits, 0);
    assert_eq!(s.y1, l.margin_y());
    assert_eq!(s.x2, l.margin_x());
    assert_eq!(s.y2, l.margin_y());
    let s = &segs[9];
    assert_eq!(s.x1, l.page_width());
    assert_eq!(s.y1, l.margin_y());
    assert_eq!(s.x2.subunits, l.page_width().subunits - l.margin_x().subunits);
    assert_eq!(s.y2, l.margin_y());
}

#[test]
fn last_tick_marks_the_top_row_boundary() {
    let l = LayoutSettings::default();
    let segs = guide_lines(&l);
    let s = &segs[15];
    let top = l.margin_y().subunits + 3 * l.card_height().subunits;
    assert_eq!(s.x1, l.page_width());
    assert_eq!(s.y1.subunits, top);
    assert_eq!(s.x2.subunits, l.page_width().subunits - l.margin_x().subunits);
    assert_eq!(s.y2.subunits, top);
}

fn in_margin(l: &LayoutSettings, x: u64, y: u64) -> bool {
    x <= l.margin_x().subunits
        || x + l.margin_x().subunits >= l.page_width().subunits
        || y <= l.margin_y().subunits
        || y + l.margin_y().subunits >= l.page_height().subunits
}

fn endpoints_stay_in_margins(l: &LayoutSettings, segs: &[LineSegment]) {
    for s in segs {
        assert!(in_margin(l, s.x1.subunits, s.y1.subunits));
        assert!(in_margin(l, s.x2.subunits, s.y2.subunits));
    }
}

#[test]
fn no_guide_segment_crosses_the_card_area() {
    let l = LayoutSettings::default();
    endpoints_stay_in_margins(&l, &guide_lines(&l));
    let l = cardsheet::LayoutSettings::new(
        cardsheet::PaperSize::Letter,
        cardsheet::CardSize::Tarrot,
        300,
    )
    .unwrap();
    endpoints_stay_in_margins(&l, &guide_lines(&l));
}
