use vstd::prelude::*;

verus! {

/// Character columns that `pixels` sampled pixels occupy: two per pixel where
/// columns are duplicated.
pub open spec fn columns(pixels: int, dup: bool) -> int {
    if dup {
        2 * pixels
    } else {
        pixels
    }
}

/// The pixel that column `column` of the content shows.
pub open spec fn pixel_of(column: int, dup: bool) -> int {
    if dup {
        column / 2
    } else {
        column
    }
}

/// A side of the source as the fit reads it: a side of zero counts as one, so
/// that a degenerate source is fitted like a single pixel.
#[verifier::inline]
pub open spec fn side(n: int) -> int {
    if n <= 0 {
        1
    } else {
        n
    }
}

/// Pixels that fit across a grid of `w` columns.
pub open spec fn width_budget(w: int, dup: bool) -> int {
    pixel_of(w, dup)
}

/// Width of the content when it is as tall as the grid:
/// `floor(ratio * h)` for the ratio `ratio_w / ratio_h`.
pub open spec fn natural_width(ratio_w: int, ratio_h: int, h: int) -> int {
    (side(ratio_w) * h) / side(ratio_h)
}

/// Whether the content at full height is narrower than the grid allows.
pub open spec fn height_fills(ratio_w: int, ratio_h: int, w: int, h: int, dup: bool) -> bool {
    natural_width(ratio_w, ratio_h, h) < width_budget(w, dup)
}

/// Width of the content in sampled pixels.
pub open spec fn content_width(ratio_w: int, ratio_h: int, w: int, h: int, dup: bool) -> int {
    if height_fills(ratio_w, ratio_h, w, h, dup) {
        natural_width(ratio_w, ratio_h, h)
    } else {
        width_budget(w, dup)
    }
}

/// Height of the content in sampled pixels: the grid's height, or
/// `floor(width_budget / ratio)` where the width is what limits the fit.
pub open spec fn content_height(ratio_w: int, ratio_h: int, w: int, h: int, dup: bool) -> int {
    if height_fills(ratio_w, ratio_h, w, h, dup) {
        h
    } else {
        (width_budget(w, dup) * side(ratio_h)) / side(ratio_w)
    }
}

/// Blank cells before the content (left or top) when `used` of `total` cells
/// hold content.
pub open spec fn pad_before(total: int, used: int, padding: bool) -> int {
    if padding {
        (total - used) / 2
    } else {
        0
    }
}

/// Blank cells after the content (right or bottom): what the leading share
/// leaves of the remainder.
pub open spec fn pad_after(total: int, used: int, padding: bool) -> int {
    if padding {
        (total - used) - (total - used) / 2
    } else {
        0
    }
}

/// The content never exceeds the grid, whatever the source and the grid are.
pub proof fn lemma_content_fits(ratio_w: int, ratio_h: int, w: int, h: int, dup: bool)
    requires
        0 <= w,
        0 <= h,
    ensures
        0 <= content_width(ratio_w, ratio_h, w, h, dup),
        columns(content_width(ratio_w, ratio_h, w, h, dup), dup) <= w,
        0 <= content_height(ratio_w, ratio_h, w, h, dup) <= h,
{
    let rw = side(ratio_w);
    let rh = side(ratio_h);
    let budget = width_budget(w, dup);
    let natural = natural_width(ratio_w, ratio_h, h);
    assert(0 <= natural) by (nonlinear_arith)
        requires
            natural == (rw * h) / rh,
            rw > 0,
            rh > 0,
            h >= 0,
    ;
    if !height_fills(ratio_w, ratio_h, w, h, dup) {
        assert(0 <= (budget * rh) / rw <= h) by (nonlinear_arith)
            requires
                budget <= (rw * h) / rh,
                0 <= budget,
                rw > 0,
                rh > 0,
                h >= 0,
        ;
    }
}

/// Whether the content and the blank cells around it add up to the grid, in
/// columns and in rows.
pub open spec fn reconciles(
    ratio_w: int,
    ratio_h: int,
    w: int,
    h: int,
    dup: bool,
    padding: bool,
) -> bool {
    let wide = columns(content_width(ratio_w, ratio_h, w, h, dup), dup);
    let high = content_height(ratio_w, ratio_h, w, h, dup);
    &&& wide + pad_before(w, wide, padding) + pad_after(w, wide, padding) == w
    &&& high + pad_before(h, high, padding) + pad_after(h, high, padding) == h
}

/// With padding, the content and the blank cells around it fill the grid
/// exactly, for every source and every grid. The blank cells are split
/// evenly; where their number is odd, the one left over comes after the
/// content.
pub proof fn law_padding_reconciles(ratio_w: int, ratio_h: int, w: int, h: int, dup: bool)
    requires
        0 <= w,
        0 <= h,
    ensures
        reconciles(ratio_w, ratio_h, w, h, dup, true),
        ({
            let wide = columns(content_width(ratio_w, ratio_h, w, h, dup), dup);
            0 <= pad_before(w, wide, true) <= pad_after(w, wide, true) <= pad_before(w, wide, true)
                + 1
        }),
        ({
            let high = content_height(ratio_w, ratio_h, w, h, dup);
            0 <= pad_before(h, high, true) <= pad_after(h, high, true) <= pad_before(h, high, true)
                + 1
        }),
{
    lemma_content_fits(ratio_w, ratio_h, w, h, dup);
}

/// Without padding no blank cell is counted, so the sizes add up to the grid
/// only where the content alone fills it.
pub proof fn law_unpadded_reconciles(ratio_w: int, ratio_h: int, w: int, h: int, dup: bool)
    ensures
        reconciles(ratio_w, ratio_h, w, h, dup, false) <==> (columns(
            content_width(ratio_w, ratio_h, w, h, dup),
            dup,
        ) == w && content_height(ratio_w, ratio_h, w, h, dup) == h),
{
}

/// Fits a source of aspect ratio `ratio_w : ratio_h` into a grid of `w`
/// columns and `h` rows.
///
/// Returns, in this order: the content's width and height in sampled pixels,
/// the blank columns left and right of it, and the blank rows above and below
/// it. With `dup` every pixel takes two columns. Without `padding` the content
/// sits in the top left corner and no blank cell is counted.
///
/// Every input has a result: a side of the source that is zero counts as
/// one, and a grid without columns or without rows has no content.
pub fn adjust_size(ratio_w: u32, ratio_h: u32, w: usize, h: usize, dup: bool, padding: bool) -> (r: (
    usize,
    usize,
    usize,
    usize,
    usize,
    usize,
))
    ensures
        r.0 == content_width(ratio_w as int, ratio_h as int, w as int, h as int, dup),
        r.1 == content_height(ratio_w as int, ratio_h as int, w as int, h as int, dup),
        r.2 == pad_before(w as int, columns(r.0 as int, dup), padding),
        r.3 == pad_after(w as int, columns(r.0 as int, dup), padding),
        r.4 == pad_before(h as int, r.1 as int, padding),
        r.5 == pad_after(h as int, r.1 as int, padding),
        columns(r.0 as int, dup) <= w,
        r.1 <= h,
        padding ==> columns(r.0 as int, dup) + r.2 + r.3 == w,
        padding ==> r.1 + r.4 + r.5 == h,
        !padding ==> r.2 == 0 && r.3 == 0 && r.4 == 0 && r.5 == 0,
{
    let rw: u128 = if ratio_w == 0 {
        1
    } else {
        ratio_w as u128
    };
    let rh: u128 = if ratio_h == 0 {
        1
    } else {
        ratio_h as u128
    };
    let adjusted_w: usize = if dup {
        w / 2
    } else {
        w
    };
    proof {
        lemma_content_fits(ratio_w as int, ratio_h as int, w as int, h as int, dup);
        assert(rw * h <= 0x1_0000_0000 * 0x1_0000_0000_0000_0000) by (nonlinear_arith)
            requires
                0 <= rw <= 0x1_0000_0000,
                0 <= h <= 0x1_0000_0000_0000_0000,
        ;
        assert(adjusted_w * rh <= 0x1_0000_0000_0000_0000 * 0x1_0000_0000) by (nonlinear_arith)
            requires
                0 <= rh <= 0x1_0000_0000,
                0 <= adjusted_w <= 0x1_0000_0000_0000_0000,
        ;
    }
    let tmp_w: u128 = (rw * (h as u128)) / rh;
    let mut new_w: usize = adjusted_w;
    let mut new_h: usize = h;
    if tmp_w < adjusted_w as u128 {
        new_w = tmp_w as usize;
    } else {
        new_h = (((adjusted_w as u128) * rh) / rw) as usize;
    }
    let wide: usize = if dup {
        new_w * 2
    } else {
        new_w
    };
    let padding_x: usize = if padding {
        (w - wide) / 2
    } else {
        0
    };
    let padding_x_r: usize = if padding {
        w - wide - padding_x
    } else {
        0
    };
    let padding_y: usize = if padding {
        (h - new_h) / 2
    } else {
        0
    };
    let padding_y_r: usize = if padding {
        h - new_h - padding_y
    } else {
        0
    };
    (new_w, new_h, padding_x, padding_x_r, padding_y, padding_y_r)
}

} // verus!
