use crate::util::imgparse::renderable;
use vstd::prelude::*;

verus! {

/// A source of frames for a display loop.
pub trait Renderer {
    /// The renderer's state is consistent.
    spec fn wf(&self) -> bool;

    /// Produces the frame to show now and the time to show it for, in
    /// milliseconds, or nothing where the source has no more frames.
    fn next(&mut self) -> (out: Option<(String, u64)>)
        requires
            old(self).wf(),
        ensures
            final(self).wf(),
    ;

    /// Prepares the renderer for a grid of `width` columns and `height` rows.
    fn resize(&mut self, width: usize, height: usize)
        requires
            old(self).wf(),
            renderable(width as int, height as int),
        ensures
            final(self).wf(),
    ;
}

} // verus!
