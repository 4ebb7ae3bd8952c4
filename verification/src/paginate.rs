use vstd::prelude::*;
use vstd::arithmetic::div_mod::{
    lemma_basic_div, lemma_div_is_ordered, lemma_div_multiples_vanish, lemma_multiply_divide_lt,
};
use vstd::arithmetic::mul::{
    lemma_mul_basics, lemma_mul_is_commutative, lemma_mul_is_distributive_add_other_way,
    lemma_mul_is_distributive_sub_other_way, lemma_mul_strictly_positive, lemma_mul_upper_bound,
};
use crate::guides::{guide_lines, spec_guide_count, spec_guide_segment_matches, LineSegment};
use crate::layout::{LayoutSettings, ScaleFactor};
use crate::measure::Measurement;

verus! {

/// The pixel dimensions of one decoded source image; decoding itself is a
/// collaborator's concern.
#[derive(Clone, Copy, PartialEq, Eq, Structural, Debug)]
pub struct ImageDims {
    pub width: usize,
    pub height: usize,
}

/// One placement instruction: draw image `image` (an index into the input
/// sequence) at offset (`x`, `y`) points, stretched by the two axis scale
/// factors, at resolution `dpi`.
#[derive(Clone, Copy, PartialEq, Eq, Structural, Debug)]
pub struct Placement {
    pub image: usize,
    pub x: Measurement,
    pub y: Measurement,
    pub scale_x: ScaleFactor,
    pub scale_y: ScaleFactor,
    pub dpi: u32,
}

/// One output page: its placement instructions in cell order, followed by
/// the page's cutting-guide geometry.
#[derive(Debug)]
pub struct Page {
    pub placements: Vec<Placement>,
    pub guides: Vec<LineSegment>,
}

/// Number of card cells on one page.
pub open spec fn spec_cells_per_page(l: LayoutSettings) -> int {
    (l.spec_card_rows() as int) * (l.spec_card_columns() as int)
}

/// Number of pages needed for `n` images at `per` cells per page: the
/// ceiling of `n / per`.
pub open spec fn spec_page_count(n: int, per: int) -> int {
    (n + per - 1) / per
}

/// Number of placements on page `p`: a full grid on every page but the
/// last, the remainder on the last.
pub open spec fn spec_placements_on_page(n: int, per: int, p: int) -> int {
    if n - p * per < per {
        n - p * per
    } else {
        per
    }
}

/// Placement `j` of page `p` draws image `p*per + j` of the input sequence
/// at the offset of cell `j`, stretched to the cell's pixel size.
pub open spec fn spec_placement_matches(
    l: LayoutSettings,
    images: Seq<ImageDims>,
    p: int,
    j: int,
    pl: Placement,
) -> bool {
    let k = p * spec_cells_per_page(l) + j;
    &&& pl.image == k
    &&& pl.x.subunits == l.spec_position_x(j)
    &&& pl.y.subunits == l.spec_position_y(j)
    &&& pl.scale_x.numerator == l.spec_card_width_pixels()
    &&& pl.scale_x.denominator == images[k].width
    &&& pl.scale_y.numerator == l.spec_card_height_pixels()
    &&& pl.scale_y.denominator == images[k].height
    &&& pl.dpi == l.spec_dpi()
}

/// Page `p` of the output: the right number of placements, each matching
/// its cell, and the full guide geometry.
pub open spec fn spec_page_matches(
    l: LayoutSettings,
    images: Seq<ImageDims>,
    p: int,
    pg: Page,
) -> bool {
    &&& pg.placements.len() == spec_placements_on_page(
        images.len() as int,
        spec_cells_per_page(l),
        p,
    )
    &&& forall|j: int|
        0 <= j < pg.placements.len() ==> spec_placement_matches(
            l,
            images,
            p,
            j,
            #[trigger] pg.placements[j],
        )
    &&& pg.guides.len() == spec_guide_count(l)
    &&& forall|k: int|
        0 <= k < pg.guides.len() ==> spec_guide_segment_matches(l, k, #[trigger] pg.guides[k])
}

/// Each cell of the single trailing back page draws the one shared back
/// image (index 0 of its own single-image sequence) in cell `i`.
pub open spec fn spec_back_placement_matches(
    l: LayoutSettings,
    back: ImageDims,
    i: int,
    pl: Placement,
) -> bool {
    &&& pl.image == 0
    &&& pl.x.subunits == l.spec_position_x(i)
    &&& pl.y.subunits == l.spec_position_y(i)
    &&& pl.scale_x.numerator == l.spec_card_width_pixels()
    &&& pl.scale_x.denominator == back.width
    &&& pl.scale_y.numerator == l.spec_card_height_pixels()
    &&& pl.scale_y.denominator == back.height
    &&& pl.dpi == l.spec_dpi()
}

/// The whole number `m` such that `m * per <= x < (m+1) * per` is `x / per`.
proof fn lemma_quotient_exact(x: int, per: int, m: int)
    requires
        1 <= per,
        0 <= m,
        m * per <= x < (m + 1) * per,
    ensures
        x / per == m,
{
    lemma_div_is_ordered(m * per, x, per);
    lemma_mul_is_commutative(m, per);
    lemma_div_multiples_vanish(m, per);
    lemma_mul_is_commutative(m + 1, per);
    lemma_multiply_divide_lt(x, per, m + 1);
}

/// Partitions the ordered image sequence into pages of `rows * columns`
/// cells, preserving input order; the last page may be partial.  Every
/// image gets a placement at its cell's offset with its own stretch
/// factors, and every page carries the cutting-guide geometry.  An empty
/// input yields no pages.
#[verifier::loop_isolation(false)]
pub fn paginate(images: &Vec<ImageDims>, l: &LayoutSettings) -> (pages: Vec<Page>)
    ensures
        pages.len() == spec_page_count(images.len() as int, spec_cells_per_page(*l)),
        forall|p: int|
            0 <= p < pages.len() ==> spec_page_matches(*l, images@, p, #[trigger] pages[p]),
{
    l.grid_facts();
    let rows = l.card_rows();
    let columns = l.card_columns();
    proof {
        lemma_mul_upper_bound(rows as int, 4, columns as int, 4);
        lemma_mul_strictly_positive(rows as int, columns as int);
    }
    let per = rows * columns;
    let n = images.len();

    proof {
        lemma_mul_basics(per as int);
    }
    let mut pages: Vec<Page> = Vec::new();
    let mut start: usize = 0;
    while start < n
        invariant
            start <= n,
            start as int <= pages.len() * (per as int),
            start == n || start as int == pages.len() * (per as int),
            pages.len() >= 1 ==> (pages.len() - 1) * (per as int) < n as int,
            forall|p: int|
                0 <= p < pages.len() ==> spec_page_matches(*l, images@, p, #[trigger] pages[p]),
        decreases n - start,
    {
        let remaining = n - start;
        let count = if remaining < per {
            remaining
        } else {
            per
        };
        let ghost m = pages.len() as int;
        proof {
            lemma_mul_is_distributive_add_other_way(per as int, m, 1);
        }
        let mut placements: Vec<Placement> = Vec::new();
        let mut j: usize = 0;
        while j < count
            invariant
                j <= count,
                placements.len() == j,
                forall|jj: int|
                    0 <= jj < j ==> spec_placement_matches(
                        *l,
                        images@,
                        pages.len() as int,
                        jj,
                        #[trigger] placements[jj],
                    ),
            decreases count - j,
        {
            let dims = images[start + j];
            let pos = l.card_position(j);
            let scale = l.scale_card((dims.width, dims.height));
            placements.push(
                Placement {
                    image: start + j,
                    x: pos.0,
                    y: pos.1,
                    scale_x: scale.0,
                    scale_y: scale.1,
                    dpi: l.dpi(),
                },
            );
            j = j + 1;
        }
        let guides = guide_lines(l);
        pages.push(Page { placements, guides });
        start = start + count;
    }
    proof {
        let m = pages.len() as int;
        let nn = n as int;
        let pp = per as int;
        if m == 0 {
            lemma_basic_div(pp - 1, pp);
        } else {
            lemma_mul_is_distributive_sub_other_way(pp, m, 1);
            lemma_mul_is_distributive_add_other_way(pp, m, 1);
            lemma_quotient_exact(nn + pp - 1, pp, m);
        }
    }
    pages
}

/// Builds the single trailing back-sheet page: every one of the
/// `rows * columns` cells is filled with the same shared back image,
/// stretched like any front image, and the page carries the usual guide
/// geometry.
#[verifier::loop_isolation(false)]
pub fn back_page(l: &LayoutSettings, back: ImageDims) -> (page: Page)
    ensures
        page.placements.len() == spec_cells_per_page(*l),
        forall|i: int|
            0 <= i < page.placements.len() ==> spec_back_placement_matches(
                *l,
                back,
                i,
                #[trigger] page.placements[i],
            ),
        page.guides.len() == spec_guide_count(*l),
        forall|k: int|
            0 <= k < page.guides.len() ==> spec_guide_segment_matches(
                *l,
                k,
                #[trigger] page.guides[k],
            ),
{
    l.grid_facts();
    let rows = l.card_rows();
    let columns = l.card_columns();
    proof {
        lemma_mul_upper_bound(rows as int, 4, columns as int, 4);
        lemma_mul_strictly_positive(rows as int, columns as int);
    }
    let per = rows * columns;
    let scale = l.scale_card((back.width, back.height));

    let mut placements: Vec<Placement> = Vec::new();
    let mut i: usize = 0;
    while i < per
        invariant
            i <= per,
            placements.len() == i,
            forall|ii: int|
                0 <= ii < i ==> spec_back_placement_matches(
                    *l,
                    back,
                    ii,
                    #[trigger] placements[ii],
                ),
        decreases per - i,
    {
        let pos = l.card_position(i);
        placements.push(
            Placement {
                image: 0,
                x: pos.0,
                y: pos.1,
                scale_x: scale.0,
                scale_y: scale.1,
                dpi: l.dpi(),
            },
        );
        i = i + 1;
    }
    let guides = guide_lines(l);
    Page { placements, guides }
}

/// An empty image sequence produces an empty page sequence.
pub proof fn lemma_paginate_empty(per: int)
    requires
        1 <= per,
    ensures
        spec_page_count(0, per) == 0,
{
    lemma_basic_div(per - 1, per);
}

/// An image sequence of exactly `rows * columns` images produces exactly
/// one page, filled completely; by the pagination contract its placement
/// `j` references image `j`, so the images appear in original order.
pub proof fn lemma_paginate_exact_fit(per: int)
    requires
        1 <= per,
    ensures
        spec_page_count(per, per) == 1,
        spec_placements_on_page(per, per, 0) == per,
{
    lemma_quotient_exact(per + per - 1, per, 1);
}

/// One image beyond a full page produces exactly two pages: the first
/// full, the second holding a single placement, which by the pagination
/// contract sits in cell 0.
pub proof fn lemma_paginate_one_extra(per: int)
    requires
        1 <= per,
    ensures
        spec_page_count(per + 1, per) == 2,
        spec_placements_on_page(per + 1, per, 0) == per,
        spec_placements_on_page(per + 1, per, 1) == 1,
{
    lemma_quotient_exact(per + per, per, 2);
}

} // verus!
