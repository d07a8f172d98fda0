use crate::util::grayscale::{grayscale_to_char, ramp_glyph, ramp_index, GSCALE};
use crate::util::raster::{pixel_at, raster_len, Rgba};
use crate::util::size::{adjust_size, columns, content_height, content_width};
use crate::util::size::{law_padding_reconciles, lemma_content_fits, pad_after, pad_before};
use crate::util::size::{pixel_of, reconciles};
use vstd::prelude::*;

verus! {

/// The glyph of a pixel that is drawn in its own colour.
pub const BLOCK: char = '\u{25a0}';

/// The glyph of a cell without content.
pub const BLANK: char = ' ';

/// The glyph that ends a row.
pub const ROW_END: char = '\n';

/// One cell of a frame as it is emitted: a colour and a glyph.
#[derive(Clone, Copy, Debug, PartialEq, Eq, Structural)]
pub struct Emission {
    pub color: Rgba,
    pub glyph: char,
}

/// Where the content sits in a grid, in character cells but for the content's
/// own size, which is in sampled pixels.
#[derive(Clone, Copy, Debug, PartialEq, Eq, Structural)]
pub struct Layout {
    pub grid_width: usize,
    pub content_width: usize,
    pub content_height: usize,
    pub left: usize,
    pub right: usize,
    pub top: usize,
    pub bottom: usize,
}

/// The colour of cells that carry no pixel.
pub open spec fn no_color() -> Rgba {
    Rgba { r: 0, g: 0, b: 0, a: 0 }
}

/// A cell without content.
pub open spec fn blank() -> Emission {
    Emission { color: no_color(), glyph: BLANK }
}

/// The end of a row.
pub open spec fn row_end() -> Emission {
    Emission { color: no_color(), glyph: ROW_END }
}

/// The cell that shows a pixel: a ramp glyph chosen by the red channel in
/// grayscale mode, a solid block otherwise, in the pixel's own colour.
pub open spec fn pixel_cell(color: Rgba, grayscale: bool) -> Emission {
    Emission {
        color,
        glyph: if grayscale {
            ramp_glyph(color.r)
        } else {
            BLOCK
        },
    }
}

/// Columns that the content takes.
pub open spec fn content_columns(layout: Layout, dup: bool) -> int {
    columns(layout.content_width as int, dup)
}

/// Cell `c` of content row `y`: blank left and right of the content, and
/// inside it the pixel that the column belongs to.
pub open spec fn content_cell(
    samples: Seq<u8>,
    layout: Layout,
    dup: bool,
    grayscale: bool,
    y: int,
    c: int,
) -> Emission {
    if layout.left <= c < layout.left + content_columns(layout, dup) {
        pixel_cell(
            pixel_at(samples, layout.content_width as int, pixel_of(c - layout.left, dup), y),
            grayscale,
        )
    } else {
        blank()
    }
}

/// Content row `y`, without its end.
pub open spec fn content_row(
    samples: Seq<u8>,
    layout: Layout,
    dup: bool,
    grayscale: bool,
    y: int,
) -> Seq<Emission> {
    Seq::new(
        (layout.left + content_columns(layout, dup) + layout.right) as nat,
        |c: int| content_cell(samples, layout, dup, grayscale, y, c),
    )
}

/// A run of `n` blank cells.
pub open spec fn blanks(n: int) -> Seq<Emission> {
    Seq::new(n as nat, |c: int| blank())
}

/// The rows of a frame, each without its end: blank rows as wide as the grid
/// above and below the content rows.
pub open spec fn frame_rows(samples: Seq<u8>, layout: Layout, dup: bool, grayscale: bool) -> Seq<
    Seq<Emission>,
> {
    Seq::new(
        (layout.top + layout.content_height + layout.bottom) as nat,
        |r: int|
            if layout.top <= r < layout.top + layout.content_height {
                content_row(samples, layout, dup, grayscale, r - layout.top)
            } else {
                blanks(layout.grid_width as int)
            },
    )
}

/// Rows in emission order, each followed by a row end.
pub open spec fn terminated(rows: Seq<Seq<Emission>>) -> Seq<Emission>
    decreases rows.len(),
{
    if rows.len() == 0 {
        Seq::empty()
    } else {
        terminated(rows.drop_last()) + rows.last().push(row_end())
    }
}

/// Samples and layout belong together: the samples are the content's pixels.
pub open spec fn layout_holds(samples: Seq<u8>, layout: Layout) -> bool {
    samples.len() == raster_len(layout.content_width as int, layout.content_height as int)
}

/// Tells whether the samples are the pixels of the layout's content.
pub fn layout_fits(samples: &Vec<u8>, layout: &Layout) -> (ok: bool)
    ensures
        ok == layout_holds(samples@, *layout),
{
    let width: usize = layout.content_width;
    let height: usize = layout.content_height;
    assert(width * height <= 0xffff_ffff_ffff_ffff * 0xffff_ffff_ffff_ffff) by (nonlinear_arith)
        requires
            0 <= width <= 0xffff_ffff_ffff_ffff,
            0 <= height <= 0xffff_ffff_ffff_ffff,
    ;
    let pixels: u128 = (width as u128) * (height as u128);
    assert(raster_len(width as int, height as int) == 4 * pixels) by (nonlinear_arith)
        requires
            pixels == width * height,
    ;
    let total: usize = samples.len();
    if pixels > usize::MAX as u128 {
        return false;
    }
    total as u128 == 4 * pixels
}

/// The layout of a source of `ratio_w` by `ratio_h` pixels in a grid of `w`
/// columns and `h` rows.
pub open spec fn fitted(
    ratio_w: u32,
    ratio_h: u32,
    w: usize,
    h: usize,
    dup: bool,
    padding: bool,
) -> Layout {
    let width = content_width(ratio_w as int, ratio_h as int, w as int, h as int, dup);
    let height = content_height(ratio_w as int, ratio_h as int, w as int, h as int, dup);
    Layout {
        grid_width: w,
        content_width: width as usize,
        content_height: height as usize,
        left: pad_before(w as int, columns(width, dup), padding) as usize,
        right: pad_after(w as int, columns(width, dup), padding) as usize,
        top: pad_before(h as int, height, padding) as usize,
        bottom: pad_after(h as int, height, padding) as usize,
    }
}

impl Layout {
    /// Fits a source of `ratio_w` by `ratio_h` pixels into a grid of `w`
    /// columns and `h` rows.
    pub fn fit(ratio_w: u32, ratio_h: u32, w: usize, h: usize, dup: bool, padding: bool) -> (layout:
        Layout)
        ensures
            layout == fitted(ratio_w, ratio_h, w, h, dup, padding),
            layout.content_width <= w,
            layout.content_height <= h,
    {
        proof {
            lemma_content_fits(ratio_w as int, ratio_h as int, w as int, h as int, dup);
        }
        let (tb_width, tb_height, padding_x_l, padding_x_r, padding_y_l, padding_y_r) = adjust_size(
            ratio_w,
            ratio_h,
            w,
            h,
            dup,
            padding,
        );
        Layout {
            grid_width: w,
            content_width: tb_width,
            content_height: tb_height,
            left: padding_x_l,
            right: padding_x_r,
            top: padding_y_l,
            bottom: padding_y_r,
        }
    }
}

/// The cell without content.
fn blank_cell() -> (e: Emission)
    ensures
        e == blank(),
{
    Emission { color: Rgba { r: 0, g: 0, b: 0, a: 0 }, glyph: BLANK }
}

/// Emits `n` blank cells.
fn push_blanks(out: &mut Vec<Emission>, n: usize)
    ensures
        final(out)@ == old(out)@ + blanks(n as int),
{
    let mut i: usize = 0;
    assert(out@ =~= old(out)@ + blanks(0));
    while i < n
        invariant
            i <= n,
            out@ == old(out)@ + blanks(i as int),
        decreases n - i,
    {
        out.push(blank_cell());
        i += 1;
        assert(out@ =~= old(out)@ + blanks(i as int));
    }
}

/// The end of a row.
fn row_end_cell() -> (e: Emission)
    ensures
        e == row_end(),
{
    Emission { color: Rgba { r: 0, g: 0, b: 0, a: 0 }, glyph: ROW_END }
}

/// The sample at column `x` of row `y`.
fn sample_at(samples: &Vec<u8>, layout: &Layout, x: usize, y: usize) -> (color: Rgba)
    requires
        layout_holds(samples@, *layout),
        x < layout.content_width,
        y < layout.content_height,
    ensures
        color == pixel_at(samples@, layout.content_width as int, x as int, y as int),
{
    let width: usize = layout.content_width;
    let total: usize = samples.len();
    assert(0 <= y * width && 4 * (y * width + x) + 3 < total) by (nonlinear_arith)
        requires
            0 <= x < width,
            0 <= y < layout.content_height,
            total == 4 * width * layout.content_height,
    ;
    let at: usize = 4 * (y * width + x);
    Rgba { r: samples[at], g: samples[at + 1], b: samples[at + 2], a: samples[at + 3] }
}

/// Emits content row `y` and its end.
fn push_content_row(
    out: &mut Vec<Emission>,
    samples: &Vec<u8>,
    layout: &Layout,
    dup: bool,
    grayscale: bool,
    y: usize,
)
    requires
        layout_holds(samples@, *layout),
        y < layout.content_height,
    ensures
        final(out)@ == old(out)@ + content_row(samples@, *layout, dup, grayscale, y as int).push(
            row_end(),
        ),
{
    let ghost row = content_row(samples@, *layout, dup, grayscale, y as int);
    push_blanks(out, layout.left);
    assert(out@ =~= old(out)@ + row.take(layout.left as int));
    let mut x: usize = 0;
    while x < layout.content_width
        invariant
            x <= layout.content_width,
            layout_holds(samples@, *layout),
            y < layout.content_height,
            row == content_row(samples@, *layout, dup, grayscale, y as int),
            out@ == old(out)@ + row.take(layout.left + columns(x as int, dup)),
        decreases layout.content_width - x,
    {
        let color = sample_at(samples, layout, x, y);
        let glyph = if grayscale {
            grayscale_to_char(color.r)
        } else {
            BLOCK
        };
        let cell = Emission { color, glyph };
        out.push(cell);
        if dup {
            out.push(cell);
            assert(out@ =~= old(out)@ + row.take(layout.left + 2 * (x + 1)));
        } else {
            assert(out@ =~= old(out)@ + row.take(layout.left + (x + 1)));
        }
        x += 1;
    }
    push_blanks(out, layout.right);
    assert(out@ =~= old(out)@ + row);
    out.push(row_end_cell());
}

/// Emits a frame from the content's samples: `layout.top` blank rows, the
/// content rows with their blank cells left and right, `layout.bottom` blank
/// rows, and a row end after every row.
pub fn render_samples(samples: &Vec<u8>, layout: &Layout, dup: bool, grayscale: bool) -> (out: Vec<
    Emission,
>)
    requires
        layout_holds(samples@, *layout),
    ensures
        out@ == terminated(frame_rows(samples@, *layout, dup, grayscale)),
{
    let ghost rows = frame_rows(samples@, *layout, dup, grayscale);
    let mut out: Vec<Emission> = Vec::new();
    assert(rows.take(0) =~= Seq::<Seq<Emission>>::empty());
    let mut above: usize = 0;
    while above < layout.top
        invariant
            above <= layout.top,
            rows == frame_rows(samples@, *layout, dup, grayscale),
            out@ == terminated(rows.take(above as int)),
        decreases layout.top - above,
    {
        push_blanks(&mut out, layout.grid_width);
        out.push(row_end_cell());
        proof {
            lemma_terminated_step(rows, above as int);
        }
        above += 1;
    }
    let mut y: usize = 0;
    while y < layout.content_height
        invariant
            y <= layout.content_height,
            layout_holds(samples@, *layout),
            rows == frame_rows(samples@, *layout, dup, grayscale),
            out@ == terminated(rows.take(layout.top + y)),
        decreases layout.content_height - y,
    {
        push_content_row(&mut out, samples, layout, dup, grayscale, y);
        proof {
            lemma_terminated_step(rows, layout.top + y);
        }
        y += 1;
    }
    let mut below: usize = 0;
    while below < layout.bottom
        invariant
            below <= layout.bottom,
            rows == frame_rows(samples@, *layout, dup, grayscale),
            out@ == terminated(rows.take(layout.top + layout.content_height + below)),
        decreases layout.bottom - below,
    {
        push_blanks(&mut out, layout.grid_width);
        out.push(row_end_cell());
        proof {
            lemma_terminated_step(rows, layout.top + layout.content_height + below);
        }
        below += 1;
    }
    assert(rows.take(rows.len() as int) =~= rows);
    out
}

/// Taking one more row appends that row and its end.
pub proof fn lemma_terminated_step(rows: Seq<Seq<Emission>>, k: int)
    requires
        0 <= k < rows.len(),
    ensures
        terminated(rows.take(k + 1)) == terminated(rows.take(k)) + rows[k].push(row_end()),
{
    assert(rows.take(k + 1).drop_last() =~= rows.take(k));
}

/// Whether rows make up a grid of `w` columns and `h` rows: there are `h` of
/// them, each has `w` cells, and no cell holds the glyph that ends a row.
pub open spec fn fills_grid(rows: Seq<Seq<Emission>>, w: int, h: int) -> bool {
    &&& rows.len() == h
    &&& forall|r: int| 0 <= r < h ==> (#[trigger] rows[r]).len() == w
    &&& forall|r: int, c: int| 0 <= r < h && 0 <= c < w ==> (#[trigger] rows[r][c]).glyph != ROW_END
}

/// Where the sizes of a layout add up to the grid, the rows of the frame make
/// up the grid exactly, whatever the samples are: the frame has as many rows
/// as the grid and every row has as many cells as the grid has columns.
pub proof fn law_frame_fills_grid(
    samples: Seq<u8>,
    ratio_w: u32,
    ratio_h: u32,
    w: usize,
    h: usize,
    dup: bool,
    padding: bool,
    grayscale: bool,
)
    requires
        reconciles(ratio_w as int, ratio_h as int, w as int, h as int, dup, padding),
    ensures
        fills_grid(
            frame_rows(samples, fitted(ratio_w, ratio_h, w, h, dup, padding), dup, grayscale),
            w as int,
            h as int,
        ),
{
    let layout = fitted(ratio_w, ratio_h, w, h, dup, padding);
    let rows = frame_rows(samples, layout, dup, grayscale);
    lemma_content_fits(ratio_w as int, ratio_h as int, w as int, h as int, dup);
    assert(rows.len() == h);
    assert forall|r: int| 0 <= r < h implies (#[trigger] rows[r]).len() == w by {
        if layout.top <= r < layout.top + layout.content_height {
            assert(rows[r] == content_row(samples, layout, dup, grayscale, r - layout.top));
        } else {
            assert(rows[r] == blanks(w as int));
        }
    }
    assert forall|r: int, c: int| 0 <= r < h && 0 <= c < w implies (#[trigger] rows[r][c]).glyph
        != ROW_END by {
        lemma_glyphs_visible(samples, layout, dup, grayscale, r - layout.top, c);
    }
}

/// With padding, the rows of a frame make up the grid exactly, for every
/// source and every grid, down to a grid of a single column or a single row.
pub proof fn law_padded_frame_fills_grid(
    samples: Seq<u8>,
    ratio_w: u32,
    ratio_h: u32,
    w: usize,
    h: usize,
    dup: bool,
    grayscale: bool,
)
    ensures
        fills_grid(
            frame_rows(samples, fitted(ratio_w, ratio_h, w, h, dup, true), dup, grayscale),
            w as int,
            h as int,
        ),
{
    law_padding_reconciles(ratio_w as int, ratio_h as int, w as int, h as int, dup);
    law_frame_fills_grid(samples, ratio_w, ratio_h, w, h, dup, true, grayscale);
}

/// No cell of a content row holds the glyph that ends a row.
pub proof fn lemma_glyphs_visible(
    samples: Seq<u8>,
    layout: Layout,
    dup: bool,
    grayscale: bool,
    y: int,
    c: int,
)
    ensures
        content_cell(samples, layout, dup, grayscale, y, c).glyph != ROW_END,
        blank().glyph != ROW_END,
{
    let color = pixel_at(
        samples,
        layout.content_width as int,
        pixel_of(c - layout.left, dup),
        y,
    );
    let i = ramp_index(color.r);
    assert(0 <= i < 66);
    assert(GSCALE@[i] != ROW_END);
}

/// A grid of a single column or a single row is filled like any other: with
/// padding, the frame of every source has the grid's rows and columns, and
/// its stream is not empty.
pub proof fn law_narrow_grid_is_filled(
    samples: Seq<u8>,
    ratio_w: u32,
    ratio_h: u32,
    w: usize,
    h: usize,
    dup: bool,
    grayscale: bool,
)
    requires
        w >= 1,
        h >= 1,
        w == 1 || h == 1,
    ensures
        fills_grid(
            frame_rows(samples, fitted(ratio_w, ratio_h, w, h, dup, true), dup, grayscale),
            w as int,
            h as int,
        ),
        terminated(
            frame_rows(samples, fitted(ratio_w, ratio_h, w, h, dup, true), dup, grayscale),
        ).len() >= 2,
{
    law_padded_frame_fills_grid(samples, ratio_w, ratio_h, w, h, dup, grayscale);
    law_stream_length(samples, ratio_w, ratio_h, w, h, dup, grayscale);
    assert(h * (w + 1) >= 2) by (nonlinear_arith)
        requires
            w >= 1,
            h >= 1,
    ;
}

/// With padding, the stream of a frame has the emissions of the grid's cells
/// and one row end for every row of the grid.
pub proof fn law_stream_length(
    samples: Seq<u8>,
    ratio_w: u32,
    ratio_h: u32,
    w: usize,
    h: usize,
    dup: bool,
    grayscale: bool,
)
    ensures
        terminated(
            frame_rows(samples, fitted(ratio_w, ratio_h, w, h, dup, true), dup, grayscale),
        ).len() == h * (w + 1),
{
    law_padded_frame_fills_grid(samples, ratio_w, ratio_h, w, h, dup, grayscale);
    lemma_terminated_len(
        frame_rows(samples, fitted(ratio_w, ratio_h, w, h, dup, true), dup, grayscale),
        w as int,
    );
}

/// A stream of rows of `w` cells each has `w + 1` emissions per row.
pub proof fn lemma_terminated_len(rows: Seq<Seq<Emission>>, w: int)
    requires
        forall|r: int| 0 <= r < rows.len() ==> (#[trigger] rows[r]).len() == w,
    ensures
        terminated(rows).len() == rows.len() * (w + 1),
    decreases rows.len(),
{
    if rows.len() > 0 {
        lemma_terminated_len(rows.drop_last(), w);
        assert(rows.len() * (w + 1) == (rows.len() - 1) * (w + 1) + (w + 1)) by (nonlinear_arith);
    }
}

} // verus!
