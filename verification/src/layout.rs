use vstd::prelude::*;
use vstd::arithmetic::div_mod::{
    lemma_basic_div, lemma_div_by_self, lemma_div_is_ordered, lemma_div_multiples_vanish,
    lemma_div_pos_is_pos, lemma_mod_self_0, lemma_multiply_divide_lt, lemma_small_mod,
};
use vstd::arithmetic::mul::{
    lemma_mul_inequality, lemma_mul_is_commutative, lemma_mul_is_distributive_add_other_way,
    lemma_mul_left_inequality, lemma_mul_nonnegative, lemma_mul_upper_bound,
};
use crate::measure::{spec_pixels, Measurement};
use crate::sizes::{CardSize, PaperSize};

verus! {

/// A configuration that admits no layout: the chosen card does not fit on
/// the chosen page at the chosen resolution.
#[derive(Clone, Copy, PartialEq, Eq, Structural, Debug)]
pub enum ConfigError {
    CardDoesNotFit,
}

/// An axis scale factor, kept as the exact ratio between the number of
/// pixels a card cell spans at the settings' resolution and the number of
/// pixels the source image has on that axis.  The factor's value is
/// `numerator / denominator`.
#[derive(Clone, Copy, PartialEq, Eq, Structural, Debug)]
pub struct ScaleFactor {
    pub numerator: u64,
    pub denominator: u64,
}

/// Number of grid columns that fit on the page: the whole number of times
/// the card width, measured in pixels at resolution `dpi`, fits into the
/// page width measured the same way.
pub open spec fn spec_grid_columns(paper: PaperSize, card: CardSize, dpi: u32) -> int {
    spec_pixels(paper.spec_width_subunits(), dpi as int) / spec_pixels(
        card.spec_width_subunits(),
        dpi as int,
    )
}

/// Number of grid rows that fit on the page, by the same fit computation
/// on the heights.
pub open spec fn spec_grid_rows(paper: PaperSize, card: CardSize, dpi: u32) -> int {
    spec_pixels(paper.spec_height_subunits(), dpi as int) / spec_pixels(
        card.spec_height_subunits(),
        dpi as int,
    )
}

/// A configuration is workable when at least one card fits in each
/// direction and the resulting grid does not spill over the page edges,
/// so that both centering margins are nonnegative.
pub open spec fn spec_layout_fits(paper: PaperSize, card: CardSize, dpi: u32) -> bool {
    let columns = spec_grid_columns(paper, card, dpi);
    let rows = spec_grid_rows(paper, card, dpi);
    &&& 1 <= columns
    &&& 1 <= rows
    &&& columns * card.spec_width_subunits() <= paper.spec_width_subunits()
    &&& rows * card.spec_height_subunits() <= paper.spec_height_subunits()
}

/// The derived, immutable layout of one document: grid dimensions and
/// centering margins for a page size, card size and print resolution.
pub struct LayoutSettings {
    margin_x: Measurement,
    margin_y: Measurement,
    card_rows: usize,
    card_columns: usize,
    page_size: PaperSize,
    card_size: CardSize,
    dpi: u32,
}

impl LayoutSettings {
    /// Every layout ever constructed satisfies this shape: the grid counts
    /// come from the pixel-space fit formula and the margins center the
    /// grid exactly.
    #[verifier::type_invariant]
    pub closed spec fn wf(self) -> bool {
        &&& 1 <= self.dpi
        &&& 1 <= self.card_columns
        &&& 1 <= self.card_rows
        &&& self.card_columns == spec_grid_columns(self.page_size, self.card_size, self.dpi)
        &&& self.card_rows == spec_grid_rows(self.page_size, self.card_size, self.dpi)
        &&& 2 * self.margin_x.subunits + (self.card_columns as int)
            * self.card_size.spec_width_subunits() == self.page_size.spec_width_subunits()
        &&& 2 * self.margin_y.subunits + (self.card_rows as int)
            * self.card_size.spec_height_subunits() == self.page_size.spec_height_subunits()
    }

    pub closed spec fn spec_margin_x(&self) -> Measurement {
        self.margin_x
    }

    pub closed spec fn spec_margin_y(&self) -> Measurement {
        self.margin_y
    }

    pub closed spec fn spec_card_columns(&self) -> usize {
        self.card_columns
    }

    pub closed spec fn spec_card_rows(&self) -> usize {
        self.card_rows
    }

    pub closed spec fn spec_page_size(&self) -> PaperSize {
        self.page_size
    }

    pub closed spec fn spec_card_size(&self) -> CardSize {
        self.card_size
    }

    pub closed spec fn spec_dpi(&self) -> u32 {
        self.dpi
    }

    /// The x offset, in point subunits, of the lower-left corner of cell `i`:
    /// the left margin plus a whole number of card widths.
    pub open spec fn spec_position_x(&self, i: int) -> int {
        self.spec_margin_x().subunits + (i % (self.spec_card_columns() as int))
            * self.spec_card_size().spec_width_subunits()
    }

    /// The y offset, in point subunits, of the lower-left corner of cell `i`:
    /// the bottom margin plus a whole number of card heights.  Cells fill a
    /// row left to right before moving to the next row, so the row index is
    /// `i` divided by the column count.
    pub open spec fn spec_position_y(&self, i: int) -> int {
        self.spec_margin_y().subunits + (i / (self.spec_card_columns() as int))
            * self.spec_card_size().spec_height_subunits()
    }

    /// The number of pixels a card cell spans horizontally at the settings'
    /// resolution.
    pub open spec fn spec_card_width_pixels(&self) -> int {
        spec_pixels(self.spec_card_size().spec_width_subunits(), self.spec_dpi() as int)
    }

    /// The number of pixels a card cell spans vertically at the settings'
    /// resolution.
    pub open spec fn spec_card_height_pixels(&self) -> int {
        spec_pixels(self.spec_card_size().spec_height_subunits(), self.spec_dpi() as int)
    }
}

/// The catalog sizes all lie in these ranges (tenths of a millimeter).
proof fn lemma_catalog_bounds(paper: PaperSize, card: CardSize)
    ensures
        2100 <= paper.spec_width_millimeter_tenths() <= 2159,
        2794 <= paper.spec_height_millimeter_tenths() <= 2970,
        630 <= card.spec_width_millimeter_tenths() <= 700,
        880 <= card.spec_height_millimeter_tenths() <= 1200,
{
    match paper {
        PaperSize::Letter => {},
        PaperSize::A4 => {},
    }
    match card {
        CardSize::Tcg => {},
        CardSize::Tarrot => {},
    }
}

/// Any catalog length spans at most `u64::MAX` pixels at any `u32` resolution.
proof fn lemma_pixels_in_u64(su: int, dpi: int)
    requires
        0 <= su <= 2970 * 5_669_290,
        0 <= dpi <= u32::MAX,
    ensures
        0 <= spec_pixels(su, dpi) <= u64::MAX,
{
    lemma_mul_nonnegative(su, dpi);
    lemma_mul_upper_bound(su, 2970int * 5_669_290, dpi, u32::MAX as int);
    lemma_div_pos_is_pos(su * dpi, 1_440_000_000);
    lemma_div_is_ordered(su * dpi, (2970 * 5_669_290) * (u32::MAX as int), 1_440_000_000);
}

/// A length of at least one pixel-divisor of subunits spans at least one
/// pixel at any positive resolution.
proof fn lemma_pixels_at_least_one(su: int, dpi: int)
    requires
        1_440_000_000 <= su,
        1 <= dpi,
    ensures
        1 <= spec_pixels(su, dpi),
{
    lemma_mul_left_inequality(su, 1, dpi);
    assert(su * 1 == su);
    lemma_div_is_ordered(1_440_000_000, su * dpi, 1_440_000_000);
}

/// A grid factor is tiny: no catalog page fits five or more of any catalog
/// card side by side.
proof fn lemma_grid_factor_small(k: int, card_su: int, page_su: int)
    requires
        630 * 5_669_290 <= card_su,
        page_su <= 2970 * 5_669_290,
        0 <= k,
        k * card_su <= page_su,
    ensures
        k <= 4,
{
    if k >= 5 {
        lemma_mul_inequality(5, k, card_su);
        assert(false);
    }
}

/// The unused width left after the grid is even in subunits (all catalog
/// lengths are even), so halving it loses nothing.
proof fn lemma_halved_margin(page_t: int, card_t: int, k: int)
    requires
        0 <= page_t,
        0 <= card_t,
        0 <= k,
        k * (card_t * 5_669_290) <= page_t * 5_669_290,
    ensures
        2 * ((page_t * 5_669_290 - k * (card_t * 5_669_290)) / 2) == page_t * 5_669_290 - k * (
        card_t * 5_669_290),
{
    let e = page_t * 2_834_645 - k * (card_t * 2_834_645);
    assert(page_t * 5_669_290 - k * (card_t * 5_669_290) == 2 * (page_t * 2_834_645 - k * (card_t
        * 2_834_645))) by (nonlinear_arith);
    lemma_div_multiples_vanish(e, 2);
}

impl LayoutSettings {
    /// Derives the layout for the given page size, card size and print
    /// resolution: the grid counts are the floor of the page/card ratio in
    /// pixel space, and the margins center the grid.  Rejects every
    /// configuration in which no whole card fits or the grid would spill
    /// over the page edges.
    pub fn new(paper: PaperSize, card: CardSize, dpi: u32) -> (result: Result<
        LayoutSettings,
        ConfigError,
    >)
        requires
            1 <= dpi,
        ensures
            match result {
                Ok(l) => {
                    &&& spec_layout_fits(paper, card, dpi)
                    &&& l.spec_page_size() == paper
                    &&& l.spec_card_size() == card
                    &&& l.spec_dpi() == dpi
                    &&& l.spec_card_columns() == spec_grid_columns(paper, card, dpi)
                    &&& l.spec_card_rows() == spec_grid_rows(paper, card, dpi)
                    &&& 1 <= l.spec_card_columns()
                    &&& 1 <= l.spec_card_rows()
                    &&& 2 * l.spec_margin_x().subunits + (l.spec_card_columns() as int)
                        * card.spec_width_subunits() == paper.spec_width_subunits()
                    &&& 2 * l.spec_margin_y().subunits + (l.spec_card_rows() as int)
                        * card.spec_height_subunits() == paper.spec_height_subunits()
                },
                Err(e) => {
                    &&& e == ConfigError::CardDoesNotFit
                    &&& !spec_layout_fits(paper, card, dpi)
                },
            },
    {
        let page_w = paper.width();
        let page_h = paper.height();
        let card_w = card.width();
        let card_h = card.height();
        proof {
            lemma_catalog_bounds(paper, card);
            lemma_pixels_in_u64(page_w.subunits as int, dpi as int);
            lemma_pixels_in_u64(page_h.subunits as int, dpi as int);
            lemma_pixels_in_u64(card_w.subunits as int, dpi as int);
            lemma_pixels_in_u64(card_h.subunits as int, dpi as int);
            lemma_pixels_at_least_one(card_w.subunits as int, dpi as int);
            lemma_pixels_at_least_one(card_h.subunits as int, dpi as int);
        }
        let page_w_px = page_w.to_pixels(dpi);
        let page_h_px = page_h.to_pixels(dpi);
        let card_w_px = card_w.to_pixels(dpi);
        let card_h_px = card_h.to_pixels(dpi);

        let columns = page_w_px / card_w_px;
        let rows = page_h_px / card_h_px;
        if columns == 0 || rows == 0 {
            return Err(ConfigError::CardDoesNotFit);
        }
        proof {
            lemma_mul_upper_bound(
                columns as int,
                u64::MAX as int,
                card_w.subunits as int,
                u64::MAX as int,
            );
            lemma_mul_upper_bound(
                rows as int,
                u64::MAX as int,
                card_h.subunits as int,
                u64::MAX as int,
            );
        }
        let used_w: u128 = (columns as u128) * (card_w.subunits as u128);
        let used_h: u128 = (rows as u128) * (card_h.subunits as u128);
        if used_w > page_w.subunits as u128 || used_h > page_h.subunits as u128 {
            return Err(ConfigError::CardDoesNotFit);
        }
        let used_w64: u64 = used_w as u64;
        let used_h64: u64 = used_h as u64;
        let diff_w = page_w.subunits - used_w64;
        let diff_h = page_h.subunits - used_h64;
        proof {
            lemma_grid_factor_small(
                columns as int,
                card.spec_width_subunits(),
                paper.spec_width_subunits(),
            );
            lemma_grid_factor_small(
                rows as int,
                card.spec_height_subunits(),
                paper.spec_height_subunits(),
            );
            lemma_halved_margin(
                paper.spec_width_millimeter_tenths() as int,
                card.spec_width_millimeter_tenths() as int,
                columns as int,
            );
            lemma_halved_margin(
                paper.spec_height_millimeter_tenths() as int,
                card.spec_height_millimeter_tenths() as int,
                rows as int,
            );
        }
        let margin_x = Measurement { subunits: diff_w / 2 };
        let margin_y = Measurement { subunits: diff_h / 2 };
        Ok(
            LayoutSettings {
                margin_x,
                margin_y,
                card_rows: rows as usize,
                card_columns: columns as usize,
                page_size: paper,
                card_size: card,
                dpi,
            },
        )
    }
}

impl Default for LayoutSettings {
    /// The layout for the default configuration: a 3 by 3 grid of standard
    /// trading cards on an A4 page at 300 dots per inch.
    fn default() -> (l: Self)
        ensures
            l.spec_page_size() == PaperSize::A4,
            l.spec_card_size() == CardSize::Tcg,
            l.spec_dpi() == 300,
            l.spec_card_columns() == 3,
            l.spec_card_rows() == 3,
            l.spec_margin_x().subunits == 595_275_450,  // 10.5 mm
            l.spec_margin_y().subunits == 935_432_850,  // 16.5 mm
    {
        let result = LayoutSettings::new(PaperSize::A4, CardSize::Tcg, 300);
        proof {
            assert(spec_pixels(2100int * 5_669_290, 300) == 2480);
            assert(spec_pixels(2970int * 5_669_290, 300) == 3507);
            assert(spec_pixels(630int * 5_669_290, 300) == 744);
            assert(spec_pixels(880int * 5_669_290, 300) == 1039);
        }
        match result {
            Ok(l) => {
                proof {
                    assert((l.spec_card_columns() as int) * CardSize::Tcg.spec_width_subunits()
                        == 10_714_958_100) by (nonlinear_arith)
                        requires
                            l.spec_card_columns() == 3,
                            CardSize::Tcg.spec_width_subunits() == 3_571_652_700,
                    ;
                    assert((l.spec_card_rows() as int) * CardSize::Tcg.spec_height_subunits()
                        == 14_966_925_600) by (nonlinear_arith)
                        requires
                            l.spec_card_rows() == 3,
                            CardSize::Tcg.spec_height_subunits() == 4_988_975_200,
                    ;
                }
                l
            },
            Err(_) => vstd::pervasive::unreached(),
        }
    }
}

impl LayoutSettings {
    /// The print resolution the layout was derived for.
    pub fn dpi(&self) -> (d: u32)
        ensures
            d == self.spec_dpi(),
    {
        self.dpi
    }

    /// The horizontal margin centering the grid on the page.
    pub fn margin_x(&self) -> (m: Measurement)
        ensures
            m == self.spec_margin_x(),
    {
        self.margin_x
    }

    /// The vertical margin centering the grid on the page.
    pub fn margin_y(&self) -> (m: Measurement)
        ensures
            m == self.spec_margin_y(),
    {
        self.margin_y
    }

    /// The number of grid rows on a page.
    pub fn card_rows(&self) -> (n: usize)
        ensures
            n == self.spec_card_rows(),
    {
        self.card_rows
    }

    /// The number of grid columns on a page.
    pub fn card_columns(&self) -> (n: usize)
        ensures
            n == self.spec_card_columns(),
    {
        self.card_columns
    }

    /// The physical card width.
    pub fn card_width(&self) -> (m: Measurement)
        ensures
            m.subunits == self.spec_card_size().spec_width_subunits(),
    {
        self.card_size.width()
    }

    /// The physical card height.
    pub fn card_height(&self) -> (m: Measurement)
        ensures
            m.subunits == self.spec_card_size().spec_height_subunits(),
    {
        self.card_size.height()
    }

    /// The physical page width.
    pub fn page_width(&self) -> (m: Measurement)
        ensures
            m.subunits == self.spec_page_size().spec_width_subunits(),
    {
        self.page_size.width()
    }

    /// The physical page height.
    pub fn page_height(&self) -> (m: Measurement)
        ensures
            m.subunits == self.spec_page_size().spec_height_subunits(),
    {
        self.page_size.height()
    }

    /// The offset, in points, of the lower-left corner of grid cell `i`.
    /// Cells fill the page left to right, then bottom row upward: column
    /// `i mod columns`, row `i div columns`.
    pub fn card_position(&self, i: usize) -> (pos: (Measurement, Measurement))
        requires
            i < self.spec_card_rows() * self.spec_card_columns(),
        ensures
            pos.0.subunits == self.spec_position_x(i as int),
            pos.1.subunits == self.spec_position_y(i as int),
    {
        proof {
            use_type_invariant(&*self);
            lemma_catalog_bounds(self.page_size, self.card_size);
            lemma_grid_factor_small(
                self.card_columns as int,
                self.card_size.spec_width_subunits(),
                self.page_size.spec_width_subunits(),
            );
            lemma_grid_factor_small(
                self.card_rows as int,
                self.card_size.spec_height_subunits(),
                self.page_size.spec_height_subunits(),
            );
        }
        let col = i % self.card_columns;
        let row = i / self.card_columns;
        proof {
            lemma_mul_is_commutative(self.card_rows as int, self.card_columns as int);
            lemma_multiply_divide_lt(
                i as int,
                self.card_columns as int,
                self.card_rows as int,
            );
            lemma_mul_upper_bound(
                col as int,
                3,
                self.card_size.spec_width_subunits(),
                700int * 5_669_290,
            );
            lemma_mul_upper_bound(
                row as int,
                3,
                self.card_size.spec_height_subunits(),
                1200int * 5_669_290,
            );
        }
        let card_w = self.card_size.width();
        let card_h = self.card_size.height();
        let x = self.margin_x.subunits + (col as u64) * card_w.subunits;
        let y = self.margin_y.subunits + (row as u64) * card_h.subunits;
        (Measurement { subunits: x }, Measurement { subunits: y })
    }

    /// Records, for callers in other modules, the structural facts that
    /// every constructed layout guarantees: a positive resolution, between
    /// one and four cards per direction, and margins that center the grid
    /// exactly.  The body does nothing; the facts come from the type
    /// invariant.
    pub fn grid_facts(&self)
        ensures
            1 <= self.spec_dpi(),
            1 <= self.spec_card_columns() <= 4,
            1 <= self.spec_card_rows() <= 4,
            2100int * 5_669_290 <= self.spec_page_size().spec_width_subunits() <= 2159int
                * 5_669_290,
            2794int * 5_669_290 <= self.spec_page_size().spec_height_subunits() <= 2970int
                * 5_669_290,
            630int * 5_669_290 <= self.spec_card_size().spec_width_subunits() <= 700int
                * 5_669_290,
            880int * 5_669_290 <= self.spec_card_size().spec_height_subunits() <= 1200int
                * 5_669_290,
            2 * self.spec_margin_x().subunits + (self.spec_card_columns() as int)
                * self.spec_card_size().spec_width_subunits()
                == self.spec_page_size().spec_width_subunits(),
            2 * self.spec_margin_y().subunits + (self.spec_card_rows() as int)
                * self.spec_card_size().spec_height_subunits()
                == self.spec_page_size().spec_height_subunits(),
    {
        proof {
            use_type_invariant(&*self);
            lemma_catalog_bounds(self.page_size, self.card_size);
            lemma_grid_factor_small(
                self.card_columns as int,
                self.card_size.spec_width_subunits(),
                self.page_size.spec_width_subunits(),
            );
            lemma_grid_factor_small(
                self.card_rows as int,
                self.card_size.spec_height_subunits(),
                self.page_size.spec_height_subunits(),
            );
        }
    }

    /// The per-axis scale factors that stretch an image of the given pixel
    /// size to fill one card cell exactly at the settings' resolution.  Each
    /// axis scales independently; aspect ratio is not preserved.
    pub fn scale_card(&self, cur_size_pixels: (usize, usize)) -> (scale: (ScaleFactor, ScaleFactor))
        ensures
            scale.0.numerator == self.spec_card_width_pixels(),
            scale.0.denominator == cur_size_pixels.0,
            scale.1.numerator == self.spec_card_height_pixels(),
            scale.1.denominator == cur_size_pixels.1,
    {
        proof {
            use_type_invariant(&*self);
            lemma_catalog_bounds(self.page_size, self.card_size);
            lemma_pixels_in_u64(self.card_size.spec_width_subunits(), self.dpi as int);
            lemma_pixels_in_u64(self.card_size.spec_height_subunits(), self.dpi as int);
        }
        let card_w = self.card_size.width();
        let card_h = self.card_size.height();
        let target_w_px = card_w.to_pixels(self.dpi);
        let target_h_px = card_h.to_pixels(self.dpi);
        (
            ScaleFactor { numerator: target_w_px, denominator: cur_size_pixels.0 as u64 },
            ScaleFactor { numerator: target_h_px, denominator: cur_size_pixels.1 as u64 },
        )
    }
}

/// The first grid cell sits exactly at the margins: cell 0 is placed at
/// offset (margin_x, margin_y).
pub proof fn lemma_first_cell_at_margins(l: LayoutSettings)
    requires
        1 <= l.spec_card_columns(),
    ensures
        l.spec_position_x(0) == l.spec_margin_x().subunits,
        l.spec_position_y(0) == l.spec_margin_y().subunits,
{
    let c = l.spec_card_columns() as int;
    lemma_small_mod(0, c as nat);
    lemma_basic_div(0, c);
}

/// Two horizontally adjacent cells of the same row are exactly one card
/// width apart and share the same vertical offset.
pub proof fn lemma_adjacent_cells_in_row(l: LayoutSettings, i: int)
    requires
        0 <= i,
        i + 1 < l.spec_card_columns(),
    ensures
        l.spec_position_x(i + 1) - l.spec_position_x(i)
            == l.spec_card_size().spec_width_subunits(),
        l.spec_position_y(i + 1) == l.spec_position_y(i),
{
    let c = l.spec_card_columns() as int;
    let w = l.spec_card_size().spec_width_subunits();
    lemma_small_mod(i as nat, c as nat);
    lemma_small_mod((i + 1) as nat, c as nat);
    lemma_basic_div(i, c);
    lemma_basic_div(i + 1, c);
    lemma_mul_is_distributive_add_other_way(w, i, 1);
    assert((i + 1) * w == i * w + 1 * w);
}

/// An image whose pixel size already matches the card cell's pixel size at
/// the settings' resolution is not rescaled: on both axes the scale ratio
/// (cell pixels over image pixels) is exactly one, with no remainder.
pub proof fn lemma_matching_image_unit_scale(
    l: LayoutSettings,
    image_width_px: u64,
    image_height_px: u64,
)
    requires
        1 <= image_width_px,
        1 <= image_height_px,
        image_width_px == l.spec_card_width_pixels(),
        image_height_px == l.spec_card_height_pixels(),
    ensures
        l.spec_card_width_pixels() / (image_width_px as int) == 1,
        l.spec_card_width_pixels() % (image_width_px as int) == 0,
        l.spec_card_height_pixels() / (image_height_px as int) == 1,
        l.spec_card_height_pixels() % (image_height_px as int) == 0,
{
    lemma_div_by_self(image_width_px as int);
    lemma_div_by_self(image_height_px as int);
    lemma_mod_self_0(image_width_px as int);
    lemma_mod_self_0(image_height_px as int);
}

} // verus!
