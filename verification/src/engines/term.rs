use crate::config::Config;
use crate::error::RenderError;
use crate::renderer::{get_renderer, is_gif, resized, stepped, DynamicRenderer, Renderer};
use crate::util::imgparse::{is_renderable, renderable};
use vstd::prelude::*;

verus! {

/// The key that ends the display loop.
pub const QUIT_KEY: char = 'q';

/// Shows one source in a terminal: holds the renderer and the size of the
/// terminal as it was seen last.
#[derive(Debug)]
pub struct Terminal {
    pub renderer: DynamicRenderer,
    pub old_size: (usize, usize),
}

/// What the display loop is to do after one turn.
#[derive(Debug)]
pub enum Turn {
    /// Leave the loop.
    Quit,
    /// The terminal has a new size: clear the screen and have the frames for
    /// it loaded; nothing is shown in this turn.
    Resized,
    /// Show this frame, then wait for this many milliseconds.
    Frame(String, u64),
}

/// A side of the grid as it is used: a side of zero counts as one.
pub open spec fn at_least_one(side: usize) -> usize {
    if side == 0 {
        1
    } else {
        side
    }
}

/// The options that a terminal renders with.
pub open spec fn terminal_config(once: bool) -> Config {
    Config { padding: true, dup: true, grayscale: false, once }
}

/// How `resize` changes a terminal, and what it returns, for a terminal of
/// `width` columns and `height` rows.
pub open spec fn terminal_resized(
    pre: Terminal,
    post: Terminal,
    width: usize,
    height: usize,
    out: Result<bool, RenderError>,
) -> bool {
    let w = at_least_one(width);
    let h = at_least_one(height);
    if pre.old_size == (w, h) {
        out == Ok::<bool, RenderError>(false) && post == pre
    } else if !renderable(w as int, h as int) {
        out == Err::<bool, RenderError>(RenderError::Geometry) && post == pre
    } else {
        &&& out == Ok::<bool, RenderError>(true)
        &&& post.old_size == (w, h)
        &&& resized(pre.renderer, post.renderer, w, h)
    }
}

/// How one turn of the display loop changes a terminal, and what it
/// returns.
pub open spec fn turned(
    pre: Terminal,
    post: Terminal,
    key: Option<char>,
    width: usize,
    height: usize,
    out: Result<Turn, RenderError>,
) -> bool {
    if key == Some(QUIT_KEY) {
        &&& out matches Ok(Turn::Quit)
        &&& post == pre
    } else {
        match out {
            Ok(Turn::Resized) => terminal_resized(pre, post, width, height, Ok(true)),
            Ok(Turn::Frame(content, interval)) => {
                &&& terminal_resized(pre, pre, width, height, Ok(false))
                &&& post.old_size == pre.old_size
                &&& stepped(pre.renderer, post.renderer, Some((content, interval)))
            },
            Ok(Turn::Quit) => {
                &&& terminal_resized(pre, pre, width, height, Ok(false))
                &&& post.old_size == pre.old_size
                &&& stepped(pre.renderer, post.renderer, None)
            },
            Err(e) => terminal_resized(pre, post, width, height, Err(e)),
        }
    }
}

impl Terminal {
    /// The renderer is consistent.
    pub open spec fn wf(&self) -> bool {
        self.renderer.wf()
    }

    /// Tells whether the renderer is consistent.
    pub fn check(&self) -> (ok: bool)
        ensures
            ok == self.wf(),
    {
        self.renderer.check()
    }

    /// Makes the terminal for the source in the file `path`. With `once` an
    /// animation is played a single time.
    pub fn new(path: &str, once: bool) -> (made: Terminal)
        ensures
            made.wf(),
            made.old_size == (0usize, 0usize),
            match made.renderer {
                DynamicRenderer::Animation(r) => is_gif(path@) && r.is_new(
                    path@,
                    terminal_config(once),
                ),
                DynamicRenderer::Static(r) => !is_gif(path@) && r.is_new(
                    path@,
                    terminal_config(once),
                ),
            },
    {
        Terminal {
            renderer: get_renderer(
                path,
                Config { padding: true, dup: true, grayscale: false, once },
            ),
            old_size: (0, 0),
        }
    }

    /// Takes note of the terminal's size. Returns whether it is a new one, in
    /// which case the renderer was resized to it. A size that was seen last
    /// changes nothing.
    ///
    /// Fails with `Geometry`, and changes nothing, where the size is too
    /// large to be rendered.
    pub fn resize(&mut self, width: usize, height: usize) -> (out: Result<bool, RenderError>)
        requires
            old(self).wf(),
        ensures
            final(self).wf(),
            terminal_resized(*old(self), *final(self), width, height, out),
    {
        let w: usize = if width == 0 {
            1
        } else {
            width
        };
        let h: usize = if height == 0 {
            1
        } else {
            height
        };
        if self.old_size.0 == w && self.old_size.1 == h {
            return Ok(false);
        }
        if !is_renderable(w, h) {
            return Err(RenderError::Geometry);
        }
        self.old_size = (w, h);
        self.renderer.resize(w, h);
        Ok(true)
    }

    /// One turn of the display loop. `key` is the key that was pressed since
    /// the last turn, if any; `width` and `height` are the terminal's size.
    ///
    /// The quit key ends the loop. A new size has the renderer resized, and
    /// nothing shown. Otherwise the renderer's next frame is to be shown, and
    /// the loop ends where it has none.
    pub fn run(&mut self, key: Option<char>, width: usize, height: usize) -> (out: Result<
        Turn,
        RenderError,
    >)
        requires
            old(self).wf(),
        ensures
            final(self).wf(),
            turned(*old(self), *final(self), key, width, height, out),
    {
        match key {
            Some(c) => {
                if c == QUIT_KEY {
                    return Ok(Turn::Quit);
                }
            },
            None => {},
        }
        match self.resize(width, height) {
            Err(e) => {
                return Err(e);
            },
            Ok(changed) => {
                if changed {
                    return Ok(Turn::Resized);
                }
            },
        }
        match self.renderer.next() {
            Some((content, interval)) => Ok(Turn::Frame(content, interval)),
            None => Ok(Turn::Quit),
        }
    }
}

/// Taking note of the same size a second time changes nothing: the renderer
/// is not resized again.
pub proof fn law_terminal_resize_idempotent(
    first: Terminal,
    second: Terminal,
    third: Terminal,
    width: usize,
    height: usize,
    out: Result<bool, RenderError>,
)
    requires
        terminal_resized(first, second, width, height, Ok(true)),
        terminal_resized(second, third, width, height, out),
    ensures
        out == Ok::<bool, RenderError>(false),
        third == second,
{
}

} // verus!
