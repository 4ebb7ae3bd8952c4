use cardsheet::{CardSize, ConfigError, LayoutSettings, PaperSize};

const TENTH_MM: u64 = 5_669_290;

#[test]
fn a4_standard_card_grid_at_300_dpi() {
    // A4 (210 x 297 mm), standard card (63 x 88 mm), 300 dpi:
    // 3 columns, 3 rows, margins 10.5 mm and 16.5 mm.
    let l = LayoutSettings::new(PaperSize::A4, CardSize::Tcg, 300).unwrap();
    assert_eq!(l.card_columns(), 3);
    assert_eq!(l.card_rows(), 3);
    assert_eq!(l.margin_x().to_millimeter_tenths(), 105);
    assert_eq!(l.margin_y().to_millimeter_tenths(), 165);
    assert_eq!(l.margin_x().subunits, 105 * TENTH_MM);
    assert_eq!(l.margin_y().subunits, 165 * TENTH_MM);
    assert_eq!(l.dpi(), 300);
}

#[test]
fn letter_tarrot_grid_at_300_dpi() {
    let l = LayoutSettings::new(PaperSize::Letter, CardSize::Tarrot, 300).unwrap();
    assert_eq!(l.card_columns(), 3);
    assert_eq!(l.card_rows(), 2);
    assert_eq!(l.margin_x().subunits, 167_244_055);
    assert_eq!(l.margin_y().subunits, 1_116_850_130);
}

#[test]
fn margins_center_the_grid_exactly() {
    for (paper, card) in [
        (PaperSize::A4, CardSize::Tcg),
        (PaperSize::A4, CardSize::Tarrot),
        (PaperSize::Letter, CardSize::Tcg),
        (PaperSize::Letter, CardSize::Tarrot),
    ] {
        let l = LayoutSettings::new(paper, card, 300).unwrap();
        assert!(l.card_columns() >= 1);
        assert!(l.card_rows() >= 1);
        let used_w = l.card_width().subunits * l.card_columns() as u64;
        let used_h = l.card_height().subunits * l.card_rows() as u64;
        assert_eq!(2 * l.margin_x().subunits + used_w, l.page_width().subunits);
        assert_eq!(2 * l.margin_y().subunits + used_h, l.page_height().subunits);
    }
}

#[test]
fn grid_that_spills_over_the_page_is_rejected() {
    // At 1 dpi the pixel grid is so coarse that four card widths are
    // deemed to fit across an A4 page although they physically spill over.
    let r = LayoutSettings::new(PaperSize::A4, CardSize::Tcg, 1);
    match r {
        Err(e) => assert_eq!(e, ConfigError::CardDoesNotFit),
        Ok(_) => panic!("expected a configuration error"),
    }
}

#[test]
fn default_layout_is_a4_standard_at_300_dpi() {
    let l = LayoutSettings::default();
    assert_eq!(l.card_columns(), 3);
    assert_eq!(l.card_rows(), 3);
    assert_eq!(l.dpi(), 300);
    assert_eq!(l.page_width().subunits, 2100 * TENTH_MM);
    assert_eq!(l.page_height().subunits, 2970 * TENTH_MM);
    assert_eq!(l.card_width().subunits, 630 * TENTH_MM);
    assert_eq!(l.card_height().subunits, 880 * TENTH_MM);
}

#[test]
fn default_paper_size_is_a4() {
    assert_eq!(PaperSize::default(), PaperSize::A4);
}

#[test]
fn first_cell_sits_at_the_margins() {
    let l = LayoutSettings::default();
    let (x, y) = l.card_position(0);
    assert_eq!(x, l.margin_x());
    assert_eq!(y, l.margin_y());
}

#[test]
fn adjacent_cells_are_one_card_width_apart() {
    let l = LayoutSettings::default();
    let (x0, y0) = l.card_position(0);
    let (x1, y1) = l.card_position(1);
    let (x2, y2) = l.card_position(2);
    assert_eq!(x1.subunits - x0.subunits, l.card_width().subunits);
    assert_eq!(x2.subunits - x1.subunits, l.card_width().subunits);
    assert_eq!(y0, y1);
    assert_eq!(y1, y2);
}

#[test]
fn cells_fill_rows_before_columns() {
    // With 3 columns, cell 3 starts the second row: back at the left
    // margin, one card height up.
    let l = LayoutSettings::default();
    let (x3, y3) = l.card_position(3);
    assert_eq!(x3, l.margin_x());
    assert_eq!(y3.subunits, l.margin_y().subunits + l.card_height().subunits);
    let (x8, y8) = l.card_position(8);
    assert_eq!(x8.subunits, l.margin_x().subunits + 2 * l.card_width().subunits);
    assert_eq!(y8.subunits, l.margin_y().subunits + 2 * l.card_height().subunits);
}

#[test]
fn matching_image_keeps_unit_scale() {
    // The card cell spans 744 x 1039 pixels at 300 dpi; an image of
    // exactly that size is not rescaled.
    let l = LayoutSettings::default();
    let (sx, sy) = l.scale_card((744, 1039));
    assert_eq!(sx.numerator, 744);
    assert_eq!(sx.denominator, 744);
    assert_eq!(sy.numerator, 1039);
    assert_eq!(sy.denominator, 1039);
    assert_eq!(sx.numerator as f32 / sx.denominator as f32, 1.0);
    assert_eq!(sy.numerator as f32 / sy.denominator as f32, 1.0);
}

#[test]
fn oversized_image_is_scaled_down() {
    let l = LayoutSettings::default();
    let (sx, sy) = l.scale_card((1488, 2078));
    assert_eq!(sx.numerator as f32 / sx.denominator as f32, 0.5);
    assert_eq!(sy.numerator as f32 / sy.denominator as f32, 0.5);
}
