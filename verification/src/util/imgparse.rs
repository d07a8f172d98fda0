use crate::config::Config;
use crate::text::{decimal, push_decimal};
use crate::util::frame::{frame_rows, layout_holds, render_samples, terminated, Emission, Layout};
use crate::util::frame::{fitted, ROW_END};
use crate::util::raster::{grayscale, grayscale_rgba, raster_len, thumbnail_exact, thumbnail_rgba};
use crate::util::raster::SourceImage;
use vstd::prelude::*;

verus! {

/// Grids that this machine can render: each side fits a raster's side, and a
/// raster as large as the grid fits in memory.
pub open spec fn renderable(w: int, h: int) -> bool {
    &&& w <= u32::MAX
    &&& h <= u32::MAX
    &&& raster_len(w, h) <= usize::MAX
}

/// Tells whether this machine can render a grid of `w` columns and `h` rows.
pub fn is_renderable(w: usize, h: usize) -> (ok: bool)
    ensures
        ok == renderable(w as int, h as int),
{
    if w > u32::MAX as usize || h > u32::MAX as usize {
        return false;
    }
    assert(w * h <= 0xffff_ffff * 0xffff_ffff) by (nonlinear_arith)
        requires
            0 <= w <= 0xffff_ffff,
            0 <= h <= 0xffff_ffff,
    ;
    let cells: u128 = (w as u128) * (h as u128);
    let wanted: u128 = 4 * cells;
    assert(wanted == raster_len(w as int, h as int)) by (nonlinear_arith)
        requires
            wanted == 4 * (w * h),
    ;
    wanted <= usize::MAX as u128
}

/// What fits within a renderable grid is renderable.
pub proof fn lemma_renderable_within(w: int, h: int, grid_w: int, grid_h: int)
    requires
        0 <= w <= grid_w,
        0 <= h <= grid_h,
        renderable(grid_w, grid_h),
    ensures
        renderable(w, h),
{
    assert(4 * w * h <= 4 * grid_w * grid_h) by (nonlinear_arith)
        requires
            0 <= w <= grid_w,
            0 <= h <= grid_h,
    ;
}

/// The content's samples: the source resampled to the content's size, and
/// turned to grays in grayscale mode.
pub open spec fn sampled(
    rgba: Seq<u8>,
    width: u32,
    height: u32,
    layout: Layout,
    grayscale: bool,
) -> Seq<u8> {
    let resized = thumbnail_rgba(
        rgba,
        width,
        height,
        layout.content_width as u32,
        layout.content_height as u32,
    );
    if grayscale {
        grayscale_rgba(resized, layout.content_width as u32, layout.content_height as u32)
    } else {
        resized
    }
}

/// The frame of an image in a grid of `w` columns and `h` rows, as a stream
/// of emissions.
pub open spec fn frame(
    rgba: Seq<u8>,
    width: u32,
    height: u32,
    w: usize,
    h: usize,
    dup: bool,
    padding: bool,
    grayscale: bool,
) -> Seq<Emission> {
    let layout = fitted(width, height, w, h, dup, padding);
    terminated(frame_rows(sampled(rgba, width, height, layout, grayscale), layout, dup, grayscale))
}

/// Resamples the image to the content's size and turns it to grays where
/// asked.
fn sample(img: &SourceImage, layout: &Layout, grayscale: bool) -> (samples: Vec<u8>)
    requires
        img.wf(),
        renderable(layout.content_width as int, layout.content_height as int),
    ensures
        samples@ == sampled(img.rgba@, img.width, img.height, *layout, grayscale),
        layout_holds(samples@, *layout),
{
    let tb_width: u32 = layout.content_width as u32;
    let tb_height: u32 = layout.content_height as u32;
    let thumbnail = thumbnail_exact(&img.rgba, img.width, img.height, tb_width, tb_height);
    if grayscale {
        self::grayscale(&thumbnail, tb_width, tb_height)
    } else {
        thumbnail
    }
}

/// Renders an image into a grid of `out_width` columns and `out_height` rows,
/// as the stream of its emissions.
///
/// The image is fitted into the grid, resampled to the fitted size, and
/// emitted row by row, every row followed by a row end.
pub fn img_to_ascii(
    img: &SourceImage,
    out_height: usize,
    out_width: usize,
    dup: bool,
    padding: bool,
    grayscale: bool,
) -> (out: Vec<Emission>)
    requires
        img.wf(),
        renderable(out_width as int, out_height as int),
    ensures
        out@ == frame(
            img.rgba@,
            img.width,
            img.height,
            out_width,
            out_height,
            dup,
            padding,
            grayscale,
        ),
{
    let layout = Layout::fit(img.width, img.height, out_width, out_height, dup, padding);
    proof {
        lemma_renderable_within(
            layout.content_width as int,
            layout.content_height as int,
            out_width as int,
            out_height as int,
        );
    }
    let samples = sample(img, &layout, grayscale);
    render_samples(&samples, &layout, dup, grayscale)
}

/// The escape sequence that resets the terminal's colours.
pub open spec fn reset_escape() -> Seq<char> {
    seq!['\u{1b}', '[', '0', 'm']
}

/// The start of the escape sequence that sets a true-colour foreground.
pub open spec fn foreground_escape() -> Seq<char> {
    seq!['\u{1b}', '[', '3', '8', ';', '2', ';']
}

/// A glyph in its colour: the foreground escape with the colour's red, green
/// and blue in decimal, the glyph, and the reset escape.
pub open spec fn colored(e: Emission) -> Seq<char> {
    foreground_escape() + decimal(e.color.r as nat) + seq![';'] + decimal(e.color.g as nat) + seq![
        ';',
    ] + decimal(e.color.b as nat) + seq!['m', e.glyph] + reset_escape()
}

/// The text of one emission: a row end is a bare newline, every other glyph
/// is written in its colour.
pub open spec fn serialized(e: Emission) -> Seq<char> {
    if e.glyph == ROW_END {
        seq![ROW_END]
    } else {
        colored(e)
    }
}

/// The text of a stream of emissions.
pub open spec fn composed(stream: Seq<Emission>) -> Seq<char>
    decreases stream.len(),
{
    if stream.len() == 0 {
        Seq::empty()
    } else {
        composed(stream.drop_last()) + serialized(stream.last())
    }
}

/// Appends the text of one emission.
fn push_emission(out: &mut String, e: &Emission)
    ensures
        final(out)@ == old(out)@ + serialized(*e),
{
    if e.glyph == ROW_END {
        out.push(ROW_END);
        assert(out@ =~= old(out)@ + serialized(*e));
    } else {
        proof {
            reveal_strlit("\x1b[38;2;");
            reveal_strlit("\x1b[0m");
        }
        out.append("\x1b[38;2;");
        assert(out@ =~= old(out)@ + foreground_escape());
        push_decimal(out, e.color.r as usize);
        out.push(';');
        push_decimal(out, e.color.g as usize);
        out.push(';');
        push_decimal(out, e.color.b as usize);
        out.push('m');
        out.push(e.glyph);
        out.append("\x1b[0m");
        assert(out@ =~= old(out)@ + colored(*e));
    }
}

/// Writes a stream of emissions as text for a true-colour terminal.
pub fn compose(stream: &Vec<Emission>) -> (text: String)
    ensures
        text@ == composed(stream@),
{
    let mut text = String::new();
    let mut i: usize = 0;
    assert(stream@.take(0) =~= Seq::<Emission>::empty());
    while i < stream.len()
        invariant
            i <= stream.len(),
            text@ == composed(stream@.take(i as int)),
        decreases stream.len() - i,
    {
        push_emission(&mut text, &stream[i]);
        assert(stream@.take(i + 1).drop_last() =~= stream@.take(i as int));
        i += 1;
    }
    assert(stream@.take(stream.len() as int) =~= stream@);
    text
}

/// Renders an image into a grid of `out_width` columns and `out_height` rows,
/// as text that is ready to be printed.
pub fn img_to_ascii_color(img: &SourceImage, out_height: usize, out_width: usize, config: &Config) -> (s:
    String)
    requires
        img.wf(),
        renderable(out_width as int, out_height as int),
    ensures
        s@ == composed(
            frame(
                img.rgba@,
                img.width,
                img.height,
                out_width,
                out_height,
                config.dup,
                config.padding,
                config.grayscale,
            ),
        ),
{
    let stream = img_to_ascii(
        img,
        out_height,
        out_width,
        config.dup,
        config.padding,
        config.grayscale,
    );
    compose(&stream)
}

} // verus!
