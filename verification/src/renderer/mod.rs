pub mod animation;
pub mod still;
pub mod traits;

pub use animation::AnimationRenderer;
pub use still::StaticRenderer;
pub use traits::Renderer;

use crate::config::Config;
use crate::text::chars_of;
use vstd::prelude::*;

verus! {

/// A renderer of either kind.
#[derive(Debug)]
pub enum DynamicRenderer {
    Static(StaticRenderer),
    Animation(AnimationRenderer),
}

/// Whether a path names an animation: its last component ends in `.gif`, in
/// any case of the letters, and has at least one character before the dot.
pub open spec fn is_gif(path: Seq<char>) -> bool {
    let n = path.len() as int;
    &&& n >= 5
    &&& path[n - 5] != '/'
    &&& path[n - 4] == '.'
    &&& (path[n - 3] == 'g' || path[n - 3] == 'G')
    &&& (path[n - 2] == 'i' || path[n - 2] == 'I')
    &&& (path[n - 1] == 'f' || path[n - 1] == 'F')
}

/// Picks the renderer for a source by the name of its file: an animation
/// renderer for a `.gif` file, a still renderer for any other.
pub fn get_renderer(path: &str, config: Config) -> (made: DynamicRenderer)
    ensures
        made.wf(),
        match made {
            DynamicRenderer::Animation(r) => is_gif(path@) && r.is_new(path@, config),
            DynamicRenderer::Static(r) => !is_gif(path@) && r.is_new(path@, config),
        },
{
    let chars = chars_of(path);
    let n: usize = chars.len();
    let animated = n >= 5 && chars[n - 5] != '/' && chars[n - 4] == '.' && (chars[n - 3] == 'g'
        || chars[n - 3] == 'G') && (chars[n - 2] == 'i' || chars[n - 2] == 'I') && (chars[n - 1]
        == 'f' || chars[n - 1] == 'F');
    if animated {
        DynamicRenderer::Animation(AnimationRenderer::new(path, config))
    } else {
        DynamicRenderer::Static(StaticRenderer::new(path, config))
    }
}

impl DynamicRenderer {
    /// Tells whether the renderer's state is consistent.
    pub fn check(&self) -> (ok: bool)
        ensures
            ok == self.wf(),
    {
        match self {
            DynamicRenderer::Static(r) => r.check(),
            DynamicRenderer::Animation(r) => r.check(),
        }
    }
}

/// How `next` changes a renderer of either kind, and what it returns.
pub open spec fn stepped(
    pre: DynamicRenderer,
    post: DynamicRenderer,
    out: Option<(String, u64)>,
) -> bool {
    match (pre, post) {
        (DynamicRenderer::Static(pre), DynamicRenderer::Static(post)) => {
            &&& post == pre
            &&& out matches Some(shown)
            &&& shown.0@ == pre.cache@
            &&& shown.1 == still::STILL_INTERVAL
        },
        (DynamicRenderer::Animation(pre), DynamicRenderer::Animation(post)) => match out {
            Some(shown) => {
                &&& animation::playing(pre)
                &&& animation::advanced(pre, post)
                &&& shown.0@ == pre.frames@[pre.current_index as int]@
                &&& shown.1 == pre.duration
            },
            None => !animation::playing(pre) && post == pre,
        },
        _ => false,
    }
}

/// How `resize` changes a renderer of either kind.
pub open spec fn resized(
    pre: DynamicRenderer,
    post: DynamicRenderer,
    width: usize,
    height: usize,
) -> bool {
    match (pre, post) {
        (DynamicRenderer::Static(pre), DynamicRenderer::Static(post)) => still::resized(
            pre,
            post,
            width,
            height,
        ),
        (DynamicRenderer::Animation(pre), DynamicRenderer::Animation(post)) => animation::restarted(
            pre,
            post,
            width,
            height,
        ),
        _ => false,
    }
}

impl Renderer for DynamicRenderer {
    /// The renderer inside is consistent.
    open spec fn wf(&self) -> bool {
        match self {
            DynamicRenderer::Static(r) => r.wf(),
            DynamicRenderer::Animation(r) => r.wf(),
        }
    }

    /// What the renderer inside does.
    fn next(&mut self) -> (out: Option<(String, u64)>)
        ensures
            stepped(*old(self), *final(self), out),
    {
        match self {
            DynamicRenderer::Static(r) => r.next(),
            DynamicRenderer::Animation(r) => r.next(),
        }
    }

    /// What the renderer inside does.
    fn resize(&mut self, width: usize, height: usize)
        ensures
            resized(*old(self), *final(self), width, height),
    {
        match self {
            DynamicRenderer::Static(r) => r.resize(width, height),
            DynamicRenderer::Animation(r) => r.resize(width, height),
        }
    }
}

} // verus!
