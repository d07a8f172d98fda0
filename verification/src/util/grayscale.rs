use vstd::prelude::*;

verus! {

/// The glyphs of the density ramp, from the one that marks the least
/// intensity to the one that marks the most.
pub const GSCALE: [char; 66] = [
    ' ', '`', '^', '"', ',', ':', ';', 'I', 'l', '!', 'i', '~', '+', '_', '-', '?', ']', '[', '}',
    '{', '1', ')', '(', '|', '\\', '/', 't', 'f', 'j', 'r', 'x', 'n', 'u', 'v', 'c', 'z', 'X', 'Y',
    'U', 'J', 'C', 'L', 'Q', '0', 'O', 'Z', 'm', 'w', 'q', 'p', 'd', 'b', 'k', 'h', 'a', 'o', '*',
    '#', 'M', 'W', '&', '8', '%', 'B', '@', '$',
];

/// Number of glyphs in the ramp.
pub const GSCALE_NUM: usize = 66;

/// Position in the ramp of an intensity between 0 (none) and 255 (full):
/// `floor(luminance * (GSCALE_NUM - 1))` for the luminance `intensity / 255`.
pub open spec fn ramp_index(intensity: u8) -> int {
    (intensity as int * (GSCALE_NUM as int - 1)) / 255
}

/// The ramp's glyph for an intensity.
pub open spec fn ramp_glyph(intensity: u8) -> char {
    GSCALE@[ramp_index(intensity)]
}

/// Maps an intensity between 0 and 255 to its glyph of the ramp.
pub fn grayscale_to_char(gs: u8) -> (glyph: char)
    ensures
        glyph == ramp_glyph(gs),
        gs == 0 ==> glyph == GSCALE@[0],
        gs == 255 ==> glyph == GSCALE@[GSCALE_NUM as int - 1],
{
    let last: usize = GSCALE_NUM - 1;
    assert(last == 65);
    let index: usize = (gs as usize * last) / 255;
    assert(index <= 65);
    GSCALE[index]
}

} // verus!
