use i2a_rs::util::size::adjust_size;

fn columns(pixels: usize, dup: bool) -> usize {
    if dup {
        2 * pixels
    } else {
        pixels
    }
}

#[test]
fn wide_source_in_doubled_grid() {
    assert_eq!(adjust_size(2, 1, 40, 20, true, true), (20, 10, 0, 0, 5, 5));
}

#[test]
fn height_limits_a_narrow_source() {
    // floor(1/3 * 10) = 3 columns of content, seven blank ones split 3 and 4.
    assert_eq!(adjust_size(1, 3, 10, 10, false, true), (3, 10, 3, 4, 0, 0));
}

#[test]
fn width_limits_a_wide_source() {
    // 40 pixels across, floor(40 / (16/9)) = 22 rows, one blank row each side.
    assert_eq!(adjust_size(16, 9, 80, 24, true, true), (40, 22, 0, 0, 1, 1));
}

#[test]
fn natural_width_equal_to_the_budget_counts_as_width_limited() {
    assert_eq!(adjust_size(1, 1, 5, 5, false, true), (5, 5, 0, 0, 0, 0));
}

#[test]
fn odd_remainder_goes_behind_the_content() {
    // Content of 2 pixels in 4 columns of a grid of 9: five blank columns.
    let (w, h, left, right, top, bottom) = adjust_size(1, 2, 9, 4, true, true);
    assert_eq!((w, h), (2, 4));
    assert_eq!((left, right), (2, 3));
    assert_eq!((top, bottom), (0, 0));
}

#[test]
fn without_padding_no_blank_cell_is_counted() {
    assert_eq!(adjust_size(2, 1, 40, 20, true, false), (20, 10, 0, 0, 0, 0));
    assert_eq!(adjust_size(1, 3, 10, 10, false, false), (3, 10, 0, 0, 0, 0));
}

#[test]
fn padded_sizes_add_up_to_the_grid() {
    let ratios: [(u32, u32); 9] =
        [(1, 1), (2, 1), (1, 2), (16, 9), (9, 16), (1, 100), (100, 1), (4000, 3000), (7, 3)];
    for (rw, rh) in ratios {
        for w in 1..40usize {
            for h in 1..25usize {
                for dup in [false, true] {
                    let (cw, ch, left, right, top, bottom) = adjust_size(rw, rh, w, h, dup, true);
                    assert_eq!(columns(cw, dup) + left + right, w);
                    assert_eq!(ch + top + bottom, h);
                    assert!(left <= right && right <= left + 1);
                    assert!(top <= bottom && bottom <= top + 1);
                }
            }
        }
    }
}

#[test]
fn grid_of_one_cell() {
    assert_eq!(adjust_size(3, 2, 1, 1, false, true), (1, 0, 0, 0, 0, 1));
    assert_eq!(adjust_size(3, 2, 1, 1, true, true), (0, 0, 0, 1, 0, 1));
    assert_eq!(adjust_size(1, 1, 1, 1, false, true), (1, 1, 0, 0, 0, 0));
}

#[test]
fn grid_of_one_row_or_one_column() {
    assert_eq!(adjust_size(2, 1, 10, 1, false, true), (2, 1, 4, 4, 0, 0));
    assert_eq!(adjust_size(1, 2, 1, 10, false, true), (1, 2, 0, 0, 4, 4));
}

#[test]
fn degenerate_source_is_fitted_like_one_pixel() {
    assert_eq!(adjust_size(0, 0, 6, 4, false, true), adjust_size(1, 1, 6, 4, false, true));
    assert_eq!(adjust_size(0, 5, 6, 4, false, true), adjust_size(1, 5, 6, 4, false, true));
    assert_eq!(adjust_size(5, 0, 6, 4, false, true), adjust_size(5, 1, 6, 4, false, true));
    assert_eq!(adjust_size(0, 0, 6, 4, false, true), (4, 4, 1, 1, 0, 0));
}

#[test]
fn empty_grid_has_no_content_and_no_blank_cells() {
    assert_eq!(adjust_size(4, 3, 0, 0, true, true), (0, 0, 0, 0, 0, 0));
    assert_eq!(adjust_size(4, 3, 0, 7, false, true), (0, 0, 0, 0, 3, 4));
    assert_eq!(adjust_size(4, 3, 7, 0, false, true), (0, 0, 3, 4, 0, 0));
}

#[test]
fn largest_sides_do_not_overflow() {
    let (cw, ch, left, right, top, bottom) =
        adjust_size(u32::MAX, 1, usize::MAX, usize::MAX, false, true);
    assert_eq!(cw + left + right, usize::MAX);
    assert_eq!(ch + top + bottom, usize::MAX);
    let (cw, ch, _, _, _, _) = adjust_size(1, u32::MAX, usize::MAX, usize::MAX, true, true);
    assert!(2 * cw <= usize::MAX && ch == usize::MAX);
}
