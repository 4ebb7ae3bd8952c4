use cardsheet::paginate::{back_page, paginate};
use cardsheet::{ImageDims, LayoutSettings};

fn card_sized_images(n: usize) -> Vec<ImageDims> {
    (0..n).map(|_| ImageDims { width: 744, height: 1039 }).collect()
}

#[test]
fn empty_input_yields_no_pages() {
    let l = LayoutSettings::default();
    let pages = paginate(&Vec::new(), &l);
    assert_eq!(pages.len(), 0);
}

#[test]
fn a_full_grid_fills_exactly_one_page() {
    let l = LayoutSettings::default();
    let images = card_sized_images(9);
    let pages = paginate(&images, &l);
    assert_eq!(pages.len(), 1);
    assert_eq!(pages[0].placements.len(), 9);
    for (j, p) in pages[0].placements.iter().enumerate() {
        // Placement j references image j: original order, each image once.
        assert_eq!(p.image, j);
        let (x, y) = l.card_position(j);
        assert_eq!(p.x, x);
        assert_eq!(p.y, y);
        assert_eq!(p.dpi, 300);
        assert_eq!(p.scale_x.numerator, 744);
        assert_eq!(p.scale_x.denominator, 744);
        assert_eq!(p.scale_y.numerator, 1039);
        assert_eq!(p.scale_y.denominator, 1039);
    }
    assert_eq!(pages[0].guides.len(), 16);
}

#[test]
fn one_image_beyond_a_full_grid_starts_a_second_page() {
    let l = LayoutSettings::default();
    let images = card_sized_images(10);
    let pages = paginate(&images, &l);
    assert_eq!(pages.len(), 2);
    assert_eq!(pages[0].placements.len(), 9);
    assert_eq!(pages[1].placements.len(), 1);
    let last = &pages[1].placements[0];
    assert_eq!(last.image, 9);
    // The overflow image sits in cell 0 of the new page: at the margins.
    assert_eq!(last.x, l.margin_x());
    assert_eq!(last.y, l.margin_y());
    assert_eq!(pages[1].guides.len(), 16);
}

#[test]
fn partial_page_keeps_input_order() {
    let l = LayoutSettings::default();
    let mut images = Vec::new();
    for k in 0..21usize {
        images.push(ImageDims { width: 100 + k, height: 200 + k });
    }
    let pages = paginate(&images, &l);
    assert_eq!(pages.len(), 3);
    assert_eq!(pages[0].placements.len(), 9);
    assert_eq!(pages[1].placements.len(), 9);
    assert_eq!(pages[2].placements.len(), 3);
    for (p, page) in pages.iter().enumerate() {
        for (j, pl) in page.placements.iter().enumerate() {
            let k = p * 9 + j;
            assert_eq!(pl.image, k);
            // The stretch denominators come from that image's own size.
            assert_eq!(pl.scale_x.denominator, (100 + k) as u64);
            assert_eq!(pl.scale_y.denominator, (200 + k) as u64);
            let (x, y) = l.card_position(j);
            assert_eq!(pl.x, x);
            assert_eq!(pl.y, y);
        }
    }
}

#[test]
fn back_page_fills_every_cell_with_the_shared_image() {
    let l = LayoutSettings::default();
    let back = ImageDims { width: 800, height: 1100 };
    let page = back_page(&l, back);
    assert_eq!(page.placements.len(), 9);
    for (i, pl) in page.placements.iter().enumerate() {
        assert_eq!(pl.image, 0);
        let (x, y) = l.card_position(i);
        assert_eq!(pl.x, x);
        assert_eq!(pl.y, y);
        assert_eq!(pl.scale_x.numerator, 744);
        assert_eq!(pl.scale_x.denominator, 800);
        assert_eq!(pl.scale_y.numerator, 1039);
        assert_eq!(pl.scale_y.denominator, 1100);
    }
    assert_eq!(page.guides.len(), 16);
}
