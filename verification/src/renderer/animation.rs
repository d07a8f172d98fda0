use crate::config::Config;
use crate::error::RenderError;
use crate::renderer::traits::Renderer;
use crate::util::gif::{cached_set, extraction_failure, extraction_of, made_for, rendered};
use crate::util::gif::{text_view, Gif, Lookup};
use crate::util::raster::SourceImage;
use crate::util::record::frame_texts;
use vstd::prelude::*;

verus! {

/// Time between two frames, in milliseconds, before a set of frames has been
/// loaded.
pub const DEFAULT_INTERVAL: u64 = 100;

/// Plays the frames of an animated source, again and again or once.
#[derive(Debug)]
pub struct AnimationRenderer {
    /// The frames for the grid in `size`, in playback order.
    pub frames: Vec<String>,
    pub config: Config,
    /// The file that the animation comes from.
    pub filename: String,
    /// Time between two frames, in milliseconds.
    pub duration: u64,
    /// The frame that `next` returns next.
    pub current_index: usize,
    /// The grid of the last resize, if any.
    pub size: Option<(usize, usize)>,
    /// Whether frames were loaded since the last resize.
    pub loaded: bool,
    /// Whether a single pass has come to its end.
    pub finished: bool,
}

/// How `next` changes a renderer that has a frame to return: the cursor moves
/// on and starts over behind the last frame, where a single pass ends.
pub open spec fn advanced(pre: AnimationRenderer, post: AnimationRenderer) -> bool {
    &&& post.frames == pre.frames
    &&& post.config == pre.config
    &&& post.filename == pre.filename
    &&& post.duration == pre.duration
    &&& post.size == pre.size
    &&& post.loaded == pre.loaded
    &&& post.current_index == (pre.current_index + 1) % (pre.frames@.len() as int)
    &&& post.finished == (pre.config.once && post.current_index == 0)
}

/// How `resize` changes a renderer: the frames are discarded, and the cursor
/// starts over for the new grid.
pub open spec fn restarted(
    pre: AnimationRenderer,
    post: AnimationRenderer,
    width: usize,
    height: usize,
) -> bool {
    &&& post.frames@.len() == 0
    &&& post.config == pre.config
    &&& post.filename == pre.filename
    &&& post.duration == DEFAULT_INTERVAL
    &&& post.current_index == 0
    &&& post.size == Some((width, height))
    &&& !post.loaded
    &&& !post.finished
}

/// How loading changes a renderer: it has the frames and their interval, and
/// starts at the first frame.
pub open spec fn loaded_with(
    pre: AnimationRenderer,
    post: AnimationRenderer,
    frames: Seq<Seq<char>>,
    duration: u64,
) -> bool {
    &&& frame_texts(post.frames@) == frames
    &&& post.duration == duration
    &&& post.current_index == 0
    &&& post.loaded
    &&& !post.finished
    &&& post.config == pre.config
    &&& post.filename == pre.filename
    &&& post.size == pre.size
}

/// How `load_cached` changes a renderer, and what it returns: a valid record
/// has its frames loaded, anything else changes nothing and hands the source
/// back.
pub open spec fn cache_loaded(
    pre: AnimationRenderer,
    post: AnimationRenderer,
    gif: Gif,
    cached: Option<Seq<char>>,
    out: Option<Gif>,
) -> bool {
    match cached {
        Some(text) => match cached_set(text) {
            Some((frames, interval)) => out is None && loaded_with(pre, post, frames, interval),
            None => out == Some(gif) && post == pre,
        },
        None => out == Some(gif) && post == pre,
    }
}

/// How `load_extracted` changes a renderer, and what it returns: the frames
/// of a successful extraction are loaded and their record is handed out, a
/// failed extraction changes nothing.
pub open spec fn extraction_loaded(
    pre: AnimationRenderer,
    post: AnimationRenderer,
    gif: Gif,
    success: bool,
    diagnostics: Seq<char>,
    images: Seq<SourceImage>,
    out: Result<Option<String>, RenderError>,
) -> bool {
    match out {
        Ok(record) => {
            &&& extraction_of(
                gif,
                success,
                diagnostics,
                images,
                frame_texts(post.frames@),
                post.duration,
                text_view(record),
            )
            &&& loaded_with(pre, post, frame_texts(post.frames@), post.duration)
        },
        Err(e) => extraction_failure(success, diagnostics, images, e) && post == pre,
    }
}

/// Whether `next` has a frame to return.
pub open spec fn playing(r: AnimationRenderer) -> bool {
    r.frames@.len() > 0 && !r.finished
}

impl AnimationRenderer {
    /// A renderer as `new` makes it for `path` and `config`.
    pub open spec fn is_new(&self, path: Seq<char>, config: Config) -> bool {
        &&& self.frames@.len() == 0
        &&& self.config == config
        &&& self.filename@ == path
        &&& self.duration == DEFAULT_INTERVAL
        &&& self.current_index == 0
        &&& self.size is None
        &&& !self.loaded
        &&& !self.finished
    }

    /// Makes a renderer for the animation in the file `path`. It has no
    /// frames until a grid is set with `resize` and frames are loaded for it.
    pub fn new(path: &str, config: Config) -> (made: AnimationRenderer)
        ensures
            made.wf(),
            made.is_new(path@, config),
    {
        AnimationRenderer {
            frames: Vec::new(),
            config,
            filename: path.to_owned(),
            duration: DEFAULT_INTERVAL,
            current_index: 0,
            size: None,
            loaded: false,
            finished: false,
        }
    }

    /// Tells whether the renderer's state is consistent.
    pub fn check(&self) -> (ok: bool)
        ensures
            ok == self.wf(),
    {
        let cursor = if self.frames.len() == 0 {
            self.current_index == 0
        } else {
            self.current_index < self.frames.len()
        };
        cursor && (!self.finished || self.config.once)
    }

    /// Describes the source in the grid of the last resize, for its frames to
    /// be looked up or extracted. `content` is the content of the file.
    ///
    /// Returns nothing before the first resize. Fails as `Gif::new` does.
    pub fn gif(&self, content: &[u8]) -> (made: Option<Result<Gif, RenderError>>)
        ensures
            match self.size {
                Some((width, height)) => made matches Some(gif) && made_for(
                    gif,
                    self.filename@,
                    content@,
                    width,
                    height,
                    self.config,
                ),
                None => made is None,
            },
    {
        match self.size {
            Some((width, height)) => Some(
                Gif::new(self.filename.as_str(), content, width, height, &self.config),
            ),
            None => None,
        }
    }

    /// Loads the frames from the cache where it holds them. `gif` describes
    /// the source in the grid of the last resize, and `cached` is the text
    /// of its metadata record, if there is one.
    ///
    /// Returns nothing where the frames were loaded, and hands the source
    /// back, for its frames to be extracted, where the cache has no valid
    /// record.
    pub fn load_cached(&mut self, gif: Gif, cached: Option<&str>) -> (out: Option<Gif>)
        requires
            old(self).wf(),
        ensures
            final(self).wf(),
            cache_loaded(
                *old(self),
                *final(self),
                gif,
                match cached {
                    Some(text) => Some(text@),
                    None => None,
                },
                out,
            ),
    {
        match gif.into_parse(cached) {
            Lookup::Hit(frames, interval) => {
                self.load(frames, interval);
                None
            },
            Lookup::Miss(gif) => Some(gif),
        }
    }

    /// Loads the frames that a run of the decoder extracted, and hands out
    /// the text of the record that caches them, if they can be cached.
    ///
    /// Fails as the extraction does, and then changes nothing.
    pub fn load_extracted(
        &mut self,
        gif: &Gif,
        success: bool,
        diagnostics: &str,
        images: &Vec<SourceImage>,
    ) -> (out: Result<Option<String>, RenderError>)
        requires
            old(self).wf(),
            gif.wf(),
        ensures
            final(self).wf(),
            extraction_loaded(
                *old(self),
                *final(self),
                *gif,
                success,
                diagnostics@,
                images@,
                out,
            ),
    {
        match gif.use_ffmpeg(success, diagnostics, images) {
            Ok(made) => {
                self.load(made.frames, made.interval);
                Ok(made.record)
            },
            Err(e) => Err(e),
        }
    }

    /// Takes the frames for the grid of the last resize and starts at the
    /// first of them.
    pub fn load(&mut self, frames: Vec<String>, duration: u64)
        requires
            old(self).wf(),
        ensures
            final(self).wf(),
            final(self).frames == frames,
            final(self).duration == duration,
            final(self).current_index == 0,
            final(self).loaded,
            !final(self).finished,
            final(self).config == old(self).config,
            final(self).filename == old(self).filename,
            final(self).size == old(self).size,
    {
        self.frames = frames;
        self.duration = duration;
        self.current_index = 0;
        self.loaded = true;
        self.finished = false;
    }
}

impl Renderer for AnimationRenderer {
    /// The cursor points at a frame, or at the start where there is none,
    /// and only a renderer that plays once has come to an end.
    open spec fn wf(&self) -> bool {
        &&& if self.frames@.len() == 0 {
            self.current_index == 0
        } else {
            self.current_index < self.frames@.len()
        }
        &&& self.finished ==> self.config.once
    }

    /// The frame at the cursor and the interval; the cursor then moves on.
    /// Nothing, and no change, where there are no frames or a single pass
    /// has ended.
    fn next(&mut self) -> (out: Option<(String, u64)>)
        ensures
            match out {
                Some(shown) => {
                    &&& playing(*old(self))
                    &&& advanced(*old(self), *final(self))
                    &&& shown.0@ == old(self).frames@[old(self).current_index as int]@
                    &&& shown.1 == old(self).duration
                },
                None => !playing(*old(self)) && *final(self) == *old(self),
            },
    {
        if self.frames.len() == 0 || self.finished {
            return None;
        }
        let result = (self.frames[self.current_index].clone(), self.duration);
        self.current_index = (self.current_index + 1) % self.frames.len();
        if self.current_index == 0 && self.config.once {
            self.finished = true;
        }
        Some(result)
    }

    /// Discards the frames and starts over for the new grid. The frames for
    /// it are to be loaded.
    fn resize(&mut self, width: usize, height: usize)
        ensures
            restarted(*old(self), *final(self), width, height),
    {
        self.frames = Vec::new();
        self.duration = DEFAULT_INTERVAL;
        self.current_index = 0;
        self.size = Some((width, height));
        self.loaded = false;
        self.finished = false;
    }
}

/// Frames that were cached are not extracted again: where an extraction
/// handed out a record, loading from that record is a hit that hands no
/// source back, and the renderer has the frames and the interval of the
/// extraction, and starts at the first frame.
pub proof fn law_cached_frames_return(
    gif: Gif,
    success: bool,
    diagnostics: Seq<char>,
    images: Seq<SourceImage>,
    frames: Seq<Seq<char>>,
    interval: u64,
    record: Seq<char>,
    again: Gif,
    pre: AnimationRenderer,
    post: AnimationRenderer,
    out: Option<Gif>,
)
    requires
        extraction_of(gif, success, diagnostics, images, frames, interval, Some(record)),
        cache_loaded(pre, post, again, Some(record), out),
    ensures
        out is None,
        frame_texts(post.frames@) == frames,
        post.duration == interval,
        post.current_index == 0,
{
}

/// A record that is no valid set of frames leads to an extraction and to
/// nothing worse: loading from it changes nothing and hands the source back,
/// and the extraction that follows loads its own frames, starts at the first
/// of them, and hands out a record only if it reads back as those frames.
pub proof fn law_broken_record_is_extracted(
    gif: Gif,
    broken: Seq<char>,
    first: AnimationRenderer,
    second: AnimationRenderer,
    third: AnimationRenderer,
    handed: Option<Gif>,
    success: bool,
    diagnostics: Seq<char>,
    images: Seq<SourceImage>,
    record: Option<String>,
)
    requires
        cached_set(broken) is None,
        cache_loaded(first, second, gif, Some(broken), handed),
        extraction_loaded(second, third, gif, success, diagnostics, images, Ok(record)),
    ensures
        handed == Some(gif),
        second == first,
        frame_texts(third.frames@) == rendered(images, gif.width, gif.height, gif.config),
        third.current_index == 0,
        record matches Some(text) ==> cached_set(text@) == Some(
            (frame_texts(third.frames@), third.duration),
        ),
{
}

/// A single pass shows every frame once, in order, and then ends: from a
/// freshly loaded set of `n` frames that is played once, the `i`-th call of
/// `next` returns frame `i`, and after `n` calls the renderer has no more
/// frames to return. `states[i]` is the renderer before call `i`.
pub proof fn law_single_pass(states: Seq<AnimationRenderer>)
    requires
        states.len() >= 2,
        states[0].frames@.len() == states.len() - 1,
        states[0].current_index == 0,
        !states[0].finished,
        states[0].config.once,
        forall|i: int| 0 <= i < states.len() - 1 ==> advanced(states[i], #[trigger] states[i + 1]),
    ensures
        forall|i: int|
            0 <= i < states.len() - 1 ==> playing(#[trigger] states[i]) && states[i].current_index
                == i,
        !playing(states[states.len() - 1]),
        states[states.len() - 1].current_index == 0,
{
    let n = states.len() - 1;
    assert forall|i: int| 0 <= i < n implies playing(#[trigger] states[i])
        && states[i].current_index == i && states[i].frames == states[0].frames
        && states[i].config == states[0].config by {
        lemma_pass_prefix(states, i);
    }
    assert(advanced(states[n - 1], states[n - 1 + 1]));
    assert(n % n == 0) by (nonlinear_arith)
        requires
            n > 0,
    ;
}

/// Within a single pass the cursor counts the calls of `next`.
proof fn lemma_pass_prefix(states: Seq<AnimationRenderer>, i: int)
    requires
        states.len() >= 2,
        states[0].frames@.len() == states.len() - 1,
        states[0].current_index == 0,
        !states[0].finished,
        states[0].config.once,
        forall|k: int| 0 <= k < states.len() - 1 ==> advanced(states[k], #[trigger] states[k + 1]),
        0 <= i < states.len() - 1,
    ensures
        playing(states[i]),
        states[i].current_index == i,
        states[i].frames == states[0].frames,
        states[i].config == states[0].config,
    decreases i,
{
    if i > 0 {
        lemma_pass_prefix(states, i - 1);
        assert(advanced(states[i - 1], states[i - 1 + 1]));
        let n = states[0].frames@.len() as int;
        assert(i % n == i) by (nonlinear_arith)
            requires
                0 <= i < n,
        ;
    }
}

} // verus!
