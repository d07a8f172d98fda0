use crate::config::Config;
use crate::error::RenderError;
use crate::renderer::traits::Renderer;
use crate::util::imgparse::{composed, frame, img_to_ascii_color};
use crate::util::raster::SourceImage;
use vstd::prelude::*;

verus! {

/// Time, in milliseconds, for which the frame of a still image is shown
/// before the display loop asks again.
pub const STILL_INTERVAL: u64 = 100;

/// Renders one still image.
#[derive(Debug)]
pub struct StaticRenderer {
    /// The file that the image comes from.
    pub filename: String,
    /// The decoded image; an image without pixels until one is set.
    pub img: SourceImage,
    pub config: Config,
    /// The frame for the grid in `size`; empty before the first resize.
    pub cache: String,
    /// The grid that `cache` was rendered for, if any.
    pub size: Option<(usize, usize)>,
    /// How often a frame was rendered.
    pub renders: u64,
}

/// A count after one more event; it stays at the largest count.
pub open spec fn bump(count: u64) -> u64 {
    if count < u64::MAX {
        (count + 1) as u64
    } else {
        count
    }
}

/// How `resize` changes a renderer: a grid that was seen last changes
/// nothing, any other grid has the frame rendered for it.
pub open spec fn resized(
    pre: StaticRenderer,
    post: StaticRenderer,
    width: usize,
    height: usize,
) -> bool {
    if pre.size == Some((width, height)) {
        post == pre
    } else {
        &&& post.filename == pre.filename
        &&& post.img == pre.img
        &&& post.config == pre.config
        &&& post.cache@ == composed(
            frame(
                pre.img.rgba@,
                pre.img.width,
                pre.img.height,
                width,
                height,
                pre.config.dup,
                pre.config.padding,
                pre.config.grayscale,
            ),
        )
        &&& post.size == Some((width, height))
        &&& post.renders == bump(pre.renders)
    }
}

impl StaticRenderer {
    /// A renderer as `new` makes it for `path` and `config`.
    pub open spec fn is_new(&self, path: Seq<char>, config: Config) -> bool {
        &&& self.filename@ == path
        &&& self.img.width == 0
        &&& self.img.height == 0
        &&& self.img.rgba@.len() == 0
        &&& self.config == config
        &&& self.cache@.len() == 0
        &&& self.size is None
        &&& self.renders == 0
    }

    /// Makes a renderer for the image in the file `path`. The image itself is
    /// set with `set_image` once it is decoded.
    pub fn new(path: &str, config: Config) -> (made: StaticRenderer)
        ensures
            made.wf(),
            made.is_new(path@, config),
    {
        StaticRenderer {
            filename: path.to_owned(),
            img: SourceImage { width: 0, height: 0, rgba: Vec::new() },
            config,
            cache: String::new(),
            size: None,
            renders: 0,
        }
    }

    /// Tells whether the renderer's state is consistent.
    pub fn check(&self) -> (ok: bool)
        ensures
            ok == self.wf(),
    {
        self.img.check()
    }

    /// Sets the decoded image and forgets the frame of the one before, so that
    /// the next resize renders it.
    ///
    /// Fails with `Decode`, and changes nothing, where the image is no valid
    /// raster: it does not hold exactly the bytes of its pixels, or is too
    /// large to be resampled.
    pub fn set_image(&mut self, img: SourceImage) -> (done: Result<(), RenderError>)
        requires
            old(self).wf(),
        ensures
            final(self).wf(),
            img.wf() ==> done is Ok && final(self).img == img && final(self).cache@.len() == 0
                && final(self).size is None && final(self).filename == old(self).filename
                && final(self).config == old(self).config && final(self).renders == old(
                self,
            ).renders,
            !img.wf() ==> done == Err::<(), RenderError>(RenderError::Decode) && *final(self)
                == *old(self),
    {
        if !img.check() {
            return Err(RenderError::Decode);
        }
        self.img = img;
        self.cache = String::new();
        self.size = None;
        Ok(())
    }
}

impl Renderer for StaticRenderer {
    /// The image is a valid raster.
    open spec fn wf(&self) -> bool {
        self.img.wf()
    }

    /// Always the current frame, to be shown for `STILL_INTERVAL`.
    fn next(&mut self) -> (out: Option<(String, u64)>)
        ensures
            *final(self) == *old(self),
            out matches Some(shown) && shown.0@ == old(self).cache@ && shown.1 == STILL_INTERVAL,
    {
        Some((self.cache.clone(), STILL_INTERVAL))
    }

    /// Renders the frame anew, unless the grid is the one seen last.
    fn resize(&mut self, width: usize, height: usize)
        ensures
            resized(*old(self), *final(self), width, height),
    {
        match self.size {
            Some((w, h)) => {
                if w == width && h == height {
                    return ;
                }
            },
            None => {},
        }
        self.cache = img_to_ascii_color(&self.img, height, width, &self.config);
        self.size = Some((width, height));
        if self.renders < u64::MAX {
            self.renders = self.renders + 1;
        }
    }
}

/// Resizing to the same grid a second time changes nothing: no frame is
/// rendered and the count of renders stays.
pub proof fn law_resize_idempotent(
    first: StaticRenderer,
    second: StaticRenderer,
    third: StaticRenderer,
    width: usize,
    height: usize,
)
    requires
        resized(first, second, width, height),
        resized(second, third, width, height),
    ensures
        third == second,
        third.renders == second.renders,
{
}

} // verus!
