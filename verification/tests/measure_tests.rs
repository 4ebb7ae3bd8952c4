use cardsheet::measure::{
    Measurement, SUBUNITS_PER_MILLIMETER_TENTH, SUBUNITS_PER_POINT,
};

#[test]
fn millimeter_tenths_to_subunits() {
    let m = Measurement::from_millimeter_tenths(10);
    assert_eq!(m.subunits, 56_692_900);
    assert_eq!(m.subunits, 10 * SUBUNITS_PER_MILLIMETER_TENTH);
}

#[test]
fn points_to_subunits() {
    let m = Measurement::from_points(1);
    assert_eq!(m.subunits, 20_000_000);
    assert_eq!(m.subunits, SUBUNITS_PER_POINT);
}

#[test]
fn one_millimeter_is_2_834645_points() {
    let m = Measurement::from_millimeter_tenths(10);
    // 1 mm = 2.834645 pt exactly.
    assert_eq!(m.subunits * 1_000_000, 2_834_645 * SUBUNITS_PER_POINT);
}

#[test]
fn millimeter_round_trip_is_lossless() {
    for tenths in [0u64, 1, 105, 630, 2970, 100_000] {
        let m = Measurement::from_millimeter_tenths(tenths);
        assert_eq!(m.to_millimeter_tenths(), tenths);
    }
}

#[test]
fn one_inch_spans_dpi_pixels() {
    // 72 pt = 1 inch, so at 300 dpi it spans exactly 300 pixels.
    let inch = Measurement::from_points(72);
    assert_eq!(inch.to_pixels(300), 300);
    assert_eq!(inch.to_pixels(96), 96);
    assert_eq!(inch.to_pixels(1), 1);
}

#[test]
fn pixel_conversion_rounds_down() {
    // 63 mm at 300 dpi: 744.09... pixels, truncated to 744.
    let w = Measurement::from_millimeter_tenths(630);
    assert_eq!(w.to_pixels(300), 744);
    // 88 mm at 300 dpi: 1039.36... pixels, truncated to 1039.
    let h = Measurement::from_millimeter_tenths(880);
    assert_eq!(h.to_pixels(300), 1039);
}

#[test]
fn measurement_arithmetic() {
    let a = Measurement::from_points(3);
    let b = Measurement::from_points(2);
    assert_eq!(a.plus(&b).subunits, 5 * SUBUNITS_PER_POINT);
    assert_eq!(a.minus(&b).subunits, SUBUNITS_PER_POINT);
    assert_eq!(b.times(4).subunits, 8 * SUBUNITS_PER_POINT);
}
