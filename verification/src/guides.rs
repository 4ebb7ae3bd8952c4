use vstd::prelude::*;
use crate::layout::LayoutSettings;
use crate::measure::Measurement;

verus! {

/// A straight cutting-guide segment between two points, with coordinates
/// in points from the page's lower-left corner.
#[derive(Clone, Copy, PartialEq, Eq, Structural, Debug)]
pub struct LineSegment {
    pub x1: Measurement,
    pub y1: Measurement,
    pub x2: Measurement,
    pub y2: Measurement,
}

/// Number of guide segments for a layout: two ticks per column boundary
/// and two per row boundary, with boundaries `0..=columns` and `0..=rows`.
pub open spec fn spec_guide_count(l: LayoutSettings) -> int {
    2 * (l.spec_card_columns() as int + 1) + 2 * (l.spec_card_rows() as int + 1)
}

/// The x offset of column boundary `c` (the left edge of column `c`).
pub open spec fn spec_column_x(l: LayoutSettings, c: int) -> int {
    l.spec_margin_x().subunits + c * l.spec_card_size().spec_width_subunits()
}

/// The y offset of row boundary `r` (the bottom edge of row `r`).
pub open spec fn spec_row_y(l: LayoutSettings, r: int) -> int {
    l.spec_margin_y().subunits + r * l.spec_card_size().spec_height_subunits()
}

/// What segment `k` of the guide sequence is.  The first `2*(columns+1)`
/// segments are vertical ticks, a bottom-margin and a top-margin tick for
/// each column boundary; the rest are horizontal ticks, a left-margin and
/// a right-margin tick for each row boundary.
pub open spec fn spec_guide_segment_matches(l: LayoutSettings, k: int, s: LineSegment) -> bool {
    let cols = l.spec_card_columns() as int;
    let page_w = l.spec_page_size().spec_width_subunits();
    let page_h = l.spec_page_size().spec_height_subunits();
    let mx = l.spec_margin_x().subunits as int;
    let my = l.spec_margin_y().subunits as int;
    if k < 2 * (cols + 1) {
        let x = spec_column_x(l, k / 2);
        if k % 2 == 0 {
            &&& s.x1.subunits == x
            &&& s.y1.subunits == my
            &&& s.x2.subunits == x
            &&& s.y2.subunits == 0
        } else {
            &&& s.x1.subunits == x
            &&& s.y1.subunits == page_h - my
            &&& s.x2.subunits == x
            &&& s.y2.subunits == page_h
        }
    } else {
        let j = k - 2 * (cols + 1);
        let y = spec_row_y(l, j / 2);
        if j % 2 == 0 {
            &&& s.x1.subunits == 0
            &&& s.y1.subunits == y
            &&& s.x2.subunits == mx
            &&& s.y2.subunits == y
        } else {
            &&& s.x1.subunits == page_w
            &&& s.y1.subunits == y
            &&& s.x2.subunits == page_w - mx
            &&& s.y2.subunits == y
        }
    }
}

/// The point lies in one of the four margin strips, outside the open
/// card-bearing area of the page.
pub open spec fn spec_point_in_margin(l: LayoutSettings, x: int, y: int) -> bool {
    ||| x <= l.spec_margin_x().subunits
    ||| x + l.spec_margin_x().subunits >= l.spec_page_size().spec_width_subunits()
    ||| y <= l.spec_margin_y().subunits
    ||| y + l.spec_margin_y().subunits >= l.spec_page_size().spec_height_subunits()
}

/// Produces the cutting-guide geometry for one page: short tick marks at
/// every column and row boundary, drawn only across the margin strips so
/// that no segment crosses the card artwork.
#[verifier::loop_isolation(false)]
pub fn guide_lines(l: &LayoutSettings) -> (segs: Vec<LineSegment>)
    ensures
        segs.len() == spec_guide_count(*l),
        forall|k: int|
            0 <= k < segs.len() ==> spec_guide_segment_matches(*l, k, #[trigger] segs[k]),
        forall|k: int|
            #![trigger segs[k]]
            0 <= k < segs.len() ==> spec_point_in_margin(
                *l,
                segs[k].x1.subunits as int,
                segs[k].y1.subunits as int,
            ) && spec_point_in_margin(*l, segs[k].x2.subunits as int, segs[k].y2.subunits as int),
{
    l.grid_facts();
    let columns = l.card_columns();
    let rows = l.card_rows();
    let mx = l.margin_x();
    let my = l.margin_y();
    let card_w = l.card_width();
    let card_h = l.card_height();
    let page_w = l.page_width();
    let page_h = l.page_height();

    let mut segs: Vec<LineSegment> = Vec::new();

    let mut c: usize = 0;
    while c <= columns
        invariant
            c <= columns + 1,
            segs.len() == 2 * c,
            forall|k: int|
                0 <= k < segs.len() ==> spec_guide_segment_matches(*l, k, #[trigger] segs[k]),
            forall|k: int|
                #![trigger segs[k]]
                0 <= k < segs.len() ==> spec_point_in_margin(
                    *l,
                    segs[k].x1.subunits as int,
                    segs[k].y1.subunits as int,
                ) && spec_point_in_margin(
                    *l,
                    segs[k].x2.subunits as int,
                    segs[k].y2.subunits as int,
                ),
        decreases columns + 1 - c,
    {
        proof {
            vstd::arithmetic::mul::lemma_mul_upper_bound(
                c as int,
                4,
                card_w.subunits as int,
                700int * 5_669_290,
            );
            vstd::arithmetic::mul::lemma_mul_nonnegative(c as int, card_w.subunits as int);
        }
        let x = Measurement { subunits: mx.subunits + (c as u64) * card_w.subunits };
        segs.push(LineSegment { x1: x, y1: my, x2: x, y2: Measurement { subunits: 0 } });
        segs.push(
            LineSegment {
                x1: x,
                y1: Measurement { subunits: page_h.subunits - my.subunits },
                x2: x,
                y2: page_h,
            },
        );
        c = c + 1;
    }

    let mut r: usize = 0;
    while r <= rows
        invariant
            r <= rows + 1,
            segs.len() == 2 * (columns + 1) + 2 * r,
            forall|k: int|
                0 <= k < segs.len() ==> spec_guide_segment_matches(*l, k, #[trigger] segs[k]),
            forall|k: int|
                #![trigger segs[k]]
                0 <= k < segs.len() ==> spec_point_in_margin(
                    *l,
                    segs[k].x1.subunits as int,
                    segs[k].y1.subunits as int,
                ) && spec_point_in_margin(
                    *l,
                    segs[k].x2.subunits as int,
                    segs[k].y2.subunits as int,
                ),
        decreases rows + 1 - r,
    {
        proof {
            vstd::arithmetic::mul::lemma_mul_upper_bound(
                r as int,
                4,
                card_h.subunits as int,
                1200int * 5_669_290,
            );
            vstd::arithmetic::mul::lemma_mul_nonnegative(r as int, card_h.subunits as int);
        }
        let y = Measurement { subunits: my.subunits + (r as u64) * card_h.subunits };
        segs.push(LineSegment { x1: Measurement { subunits: 0 }, y1: y, x2: mx, y2: y });
        segs.push(
            LineSegment {
                x1: page_w,
                y1: y,
                x2: Measurement { subunits: page_w.subunits - mx.subunits },
                y2: y,
            },
        );
        r = r + 1;
    }

    segs
}

} // verus!
