use vstd::prelude::*;

verus! {

/// Rendering options of one session.
#[derive(Clone, Copy, Debug, PartialEq, Eq, Structural)]
pub struct Config {
    /// Centre the content in the grid by surrounding it with blank cells.
    pub padding: bool,
    /// Emit every sampled pixel twice in a row, since a character cell is
    /// about twice as tall as it is wide.
    pub dup: bool,
    /// Pick glyphs from the density ramp instead of drawing solid blocks.
    pub grayscale: bool,
    /// Stop an animation after its first pass instead of looping.
    pub once: bool,
}

} // verus!
