use crate::config::Config;
use crate::error::RenderError;
use crate::text::{decimal, push_decimal};
use crate::util::cache::{cache_source, cache_variant, get_cache_dirname, hex_upper, sha256};
use crate::util::cache::{sha256_digest, CacheDir, HASH_LIMIT};
use crate::util::diagnostics::{captures, frame_interval, interval_from_captures, regex_captures};
use crate::util::diagnostics::{FRAME_PATTERN, TIME_PATTERN};
use crate::util::imgparse::{composed, frame, img_to_ascii_color, is_renderable, renderable};
use crate::util::raster::SourceImage;
use crate::util::record::{check_record, frame_set, frame_texts, json_fields, json_record};
use crate::util::record::{digit_runs_fit, digit_runs_within, read_fields, write_fields};
use crate::util::record::{FrameSetView, DIGIT_RUN_LIMIT, FRAMES_KEY, INTERVAL_KEY};
use vstd::prelude::*;

verus! {

/// An animated source that is to be shown in one grid.
#[derive(Debug)]
pub struct Gif {
    pub filename: String,
    pub dirname: CacheDir,
    pub width: usize,
    pub height: usize,
    pub config: Config,
}

/// The set of frames that a cache's metadata record holds, if the text is a
/// valid record. A text with too long a run of digits is none.
pub open spec fn cached_set(content: Seq<char>) -> FrameSetView {
    if digit_runs_within(content, DIGIT_RUN_LIMIT as int) {
        frame_set(json_fields(content, INTERVAL_KEY@, FRAMES_KEY@))
    } else {
        None
    }
}

/// The time between two frames, in milliseconds, that the decoder's
/// diagnostics give.
pub open spec fn diagnosed_interval(output: Seq<char>) -> Option<nat> {
    frame_interval(regex_captures(FRAME_PATTERN@, output), regex_captures(TIME_PATTERN@, output))
}

/// The filter that has the decoder scale its frames down to fit `width` by
/// `height` pixels.
pub open spec fn scale_filter(width: nat, height: nat) -> Seq<char> {
    "scale=w="@ + decimal(width) + ":h="@ + decimal(height)
        + ":force_original_aspect_ratio=decrease"@
}

/// The pattern by which the decoder names the frames it writes to `dir`.
pub open spec fn frame_pattern(dir: Seq<char>) -> Seq<char> {
    dir + "/%05d.jpg"@
}

/// A run of `n` zeros; none where `n` is negative.
pub open spec fn zeros(n: int) -> Seq<char> {
    Seq::new(
        if n > 0 {
            n as nat
        } else {
            0
        },
        |i: int| '0',
    )
}

/// A number in decimal notation, with zeros in front up to five digits.
pub open spec fn five_digits(n: nat) -> Seq<char> {
    zeros(5 - decimal(n).len()) + decimal(n)
}

/// The name of the file that the decoder writes frame `index` to; the first
/// frame has index 1.
pub open spec fn frame_name(index: nat) -> Seq<char> {
    five_digits(index) + ".jpg"@
}

/// The texts of the frames of some images in a grid of `width` columns and
/// `height` rows.
pub open spec fn rendered(images: Seq<SourceImage>, width: usize, height: usize, config: Config) -> Seq<
    Seq<char>,
> {
    Seq::new(
        images.len(),
        |i: int|
            composed(
                frame(
                    images[i].rgba@,
                    images[i].width,
                    images[i].height,
                    width,
                    height,
                    config.dup,
                    config.padding,
                    config.grayscale,
                ),
            ),
    )
}

/// Whether every image is a valid raster: it holds exactly the bytes of its
/// pixels and is small enough to be resampled.
pub open spec fn all_wf(images: Seq<SourceImage>) -> bool {
    forall|i: int| 0 <= i < images.len() ==> (#[trigger] images[i]).wf()
}

/// What an extraction yields.
#[derive(Debug)]
pub struct Extraction {
    /// The rendered frames, in playback order.
    pub frames: Vec<String>,
    /// The time between two frames, in milliseconds.
    pub interval: u64,
    /// The text of the metadata record that caches the frames; none where
    /// the frames cannot be cached, as an empty set cannot.
    pub record: Option<String>,
}

/// What a look into the cache yields.
#[derive(Debug)]
pub enum Lookup {
    /// The cache holds the frames and their interval.
    Hit(Vec<String>, u64),
    /// The cache holds no valid record: the frames are to be extracted.
    Miss(Gif),
}

/// Tells whether two lists hold the same texts in the same order.
fn same_texts(a: &Vec<String>, b: &Vec<String>) -> (same: bool)
    ensures
        same == (frame_texts(a@) == frame_texts(b@)),
{
    if a.len() != b.len() {
        assert(frame_texts(a@).len() != frame_texts(b@).len());
        return false;
    }
    let mut i: usize = 0;
    while i < a.len()
        invariant
            i <= a.len(),
            a.len() == b.len(),
            forall|k: int| 0 <= k < i ==> (#[trigger] a@[k])@ == b@[k]@,
        decreases a.len() - i,
    {
        if a[i] != b[i] {
            assert(frame_texts(a@)[i as int] != frame_texts(b@)[i as int]);
            return false;
        }
        i += 1;
    }
    assert(frame_texts(a@) =~= frame_texts(b@));
    true
}

/// Names the file that the decoder writes frame `index` to.
pub fn frame_filename(index: usize) -> (name: String)
    ensures
        name@ == frame_name(index as nat),
{
    let mut digits = String::new();
    push_decimal(&mut digits, index);
    assert(digits@ =~= decimal(index as nat));
    let count: usize = digits.as_str().unicode_len();
    let mut name = String::new();
    let mut i: usize = count;
    assert(name@ =~= zeros(0));
    while i < 5
        invariant
            count <= i,
            count < 5 ==> i <= 5,
            count >= 5 ==> i == count,
            name@ == zeros(i - count),
        decreases 5 - i,
    {
        name.push('0');
        i += 1;
        assert(name@ =~= zeros(i - count));
    }
    assert(name@ =~= zeros(5 - count));
    name.append(digits.as_str());
    name.append(".jpg");
    name
}

/// What `Gif::new` makes of a source's name and content and of a grid: the
/// source with its cache directory, or `Geometry` where the grid cannot be
/// rendered, or else `Decode` where the content is too long to hash.
pub open spec fn made_for(
    made: Result<Gif, RenderError>,
    filename: Seq<char>,
    content: Seq<u8>,
    width: usize,
    height: usize,
    config: Config,
) -> bool {
    match made {
        Ok(gif) => {
            &&& renderable(width as int, height as int)
            &&& content.len() < HASH_LIMIT
            &&& gif.filename@ == filename
            &&& gif.dirname.source@ == cache_source(hex_upper(sha256(content)))
            &&& gif.dirname.variant@ == cache_variant(
                width as nat,
                height as nat,
                config.grayscale,
                config.dup,
            )
            &&& gif.width == width
            &&& gif.height == height
            &&& gif.config == config
        },
        Err(e) => if renderable(width as int, height as int) {
            content.len() >= HASH_LIMIT && e == RenderError::Decode
        } else {
            e == RenderError::Geometry
        },
    }
}

/// Whether a record's text reads back as the given frames and interval.
pub open spec fn reads_back(text: Seq<char>, frames: Seq<Seq<char>>, interval: u64) -> bool {
    cached_set(text) == Some((frames, interval))
}

/// The text of a record, if there is one.
pub open spec fn text_view(text: Option<String>) -> Option<Seq<char>> {
    match text {
        Some(t) => Some(t@),
        None => None,
    }
}

/// What `checked_record` hands out for a set of frames: the text that caches
/// them where it reads back as the same frames and interval, and nothing
/// where it does not.
pub open spec fn record_of(record: Option<Seq<char>>, frames: Seq<Seq<char>>, interval: u64) -> bool {
    match record {
        Some(text) => {
            &&& text == json_record(INTERVAL_KEY@, FRAMES_KEY@, interval, frames)
            &&& reads_back(text, frames, interval)
        },
        None => !reads_back(
            json_record(INTERVAL_KEY@, FRAMES_KEY@, interval, frames),
            frames,
            interval,
        ),
    }
}

/// What an extraction yields where it succeeds: the interval of the run, the
/// frames of the images in the source's grid, and their record.
pub open spec fn extraction_of(
    gif: Gif,
    success: bool,
    diagnostics: Seq<char>,
    images: Seq<SourceImage>,
    frames: Seq<Seq<char>>,
    interval: u64,
    record: Option<Seq<char>>,
) -> bool {
    &&& run_outcome(success, diagnostics) == Ok::<u64, RenderError>(interval)
    &&& all_wf(images)
    &&& frames == rendered(images, gif.width, gif.height, gif.config)
    &&& record_of(record, frames, interval)
}

/// How an extraction fails: as the run of the decoder does, or else with
/// `Decode` where an image is malformed.
pub open spec fn extraction_failure(
    success: bool,
    diagnostics: Seq<char>,
    images: Seq<SourceImage>,
    e: RenderError,
) -> bool {
    match run_outcome(success, diagnostics) {
        Ok(_) => !all_wf(images) && e == RenderError::Decode,
        Err(failure) => e == failure,
    }
}

/// What a run of the decoder yields: the interval that its diagnostics give,
/// or `ExternalTool` where it failed or they give none.
pub open spec fn run_outcome(success: bool, diagnostics: Seq<char>) -> Result<u64, RenderError> {
    if success {
        match diagnosed_interval(diagnostics) {
            Some(ms) => Ok(ms as u64),
            None => Err(RenderError::ExternalTool),
        }
    } else {
        Err(RenderError::ExternalTool)
    }
}

impl Gif {
    /// The grid can be rendered.
    pub open spec fn wf(&self) -> bool {
        renderable(self.width as int, self.height as int)
    }

    /// Takes a source by its name and content, and the grid it is to be shown
    /// in.
    ///
    /// Fails with `Geometry` where the grid cannot be rendered, and with
    /// `Decode` where the content is too long to hash.
    pub fn new(filename: &str, content: &[u8], width: usize, height: usize, config: &Config) -> (made:
        Result<Gif, RenderError>)
        ensures
            made_for(made, filename@, content@, width, height, *config),
    {
        if !is_renderable(width, height) {
            return Err(RenderError::Geometry);
        }
        let hash = match sha256_digest(content) {
            Ok(hash) => hash,
            Err(e) => {
                return Err(e);
            },
        };
        Ok(
            Gif {
                filename: filename.to_owned(),
                dirname: get_cache_dirname(hash.as_str(), width, height, config),
                width,
                height,
                config: *config,
            },
        )
    }

    /// Reads a set of frames from the text of a cache's metadata record.
    ///
    /// Fails with `CacheRead` where the text is no valid record.
    pub fn from_json(&self, content: &str) -> (set: Result<(Vec<String>, u64), RenderError>)
        ensures
            match cached_set(content@) {
                Some((frames, interval)) => set matches Ok(found) && frame_texts(found.0@)
                    == frames && found.1 == interval,
                None => set == Err::<(Vec<String>, u64), RenderError>(RenderError::CacheRead),
            },
    {
        if !digit_runs_fit(content) {
            return Err(RenderError::CacheRead);
        }
        check_record(read_fields(content, INTERVAL_KEY, FRAMES_KEY))
    }

    /// Looks into the cache: `cached` is the text of the metadata record, if
    /// there is one. A valid record is a hit. Anything else is a miss, which
    /// hands the source back for its frames to be extracted.
    pub fn into_parse(self, cached: Option<&str>) -> (found: Lookup)
        ensures
            match cached {
                Some(text) => match cached_set(text@) {
                    Some((frames, interval)) => found matches Lookup::Hit(texts, ms)
                        && frame_texts(texts@) == frames && ms == interval,
                    None => found == Lookup::Miss(self),
                },
                None => found == Lookup::Miss(self),
            },
    {
        match cached {
            Some(text) => {
                if let Ok(result) = self.from_json(text) {
                    return Lookup::Hit(result.0, result.1);
                }
            },
            None => {},
        }
        Lookup::Miss(self)
    }

    /// The arguments that have the decoder write the source's frames, scaled
    /// down to the grid, into `cache_dir`.
    pub fn ffmpeg_args(&self, cache_dir: &str) -> (args: Vec<String>)
        ensures
            frame_texts(args@) == seq![
                "-i"@,
                self.filename@,
                "-vf"@,
                scale_filter(self.width as nat, self.height as nat),
                frame_pattern(cache_dir@),
            ],
    {
        let mut filter = String::new();
        filter.append("scale=w=");
        push_decimal(&mut filter, self.width);
        filter.append(":h=");
        push_decimal(&mut filter, self.height);
        filter.append(":force_original_aspect_ratio=decrease");
        assert(filter@ =~= scale_filter(self.width as nat, self.height as nat));
        let mut pattern = String::new();
        pattern.append(cache_dir);
        pattern.append("/%05d.jpg");
        assert(pattern@ =~= frame_pattern(cache_dir@));
        let mut args: Vec<String> = Vec::new();
        args.push("-i".to_owned());
        args.push(self.filename.clone());
        args.push("-vf".to_owned());
        args.push(filter);
        args.push(pattern);
        assert(frame_texts(args@) =~= seq![
            "-i"@,
            self.filename@,
            "-vf"@,
            scale_filter(self.width as nat, self.height as nat),
            frame_pattern(cache_dir@),
        ]);
        args
    }

    /// Derives the time between two frames, in milliseconds, from the
    /// decoder's diagnostics.
    ///
    /// Fails with `ExternalTool` where the diagnostics do not give it.
    pub fn parse_ffmpeg_output(&self, output: &str) -> (interval: Result<u64, RenderError>)
        ensures
            match diagnosed_interval(output@) {
                Some(ms) => interval == Ok::<u64, RenderError>(ms as u64) && ms <= u64::MAX,
                None => interval == Err::<u64, RenderError>(RenderError::ExternalTool),
            },
    {
        let frame = captures(FRAME_PATTERN, output);
        let time = captures(TIME_PATTERN, output);
        interval_from_captures(&frame, &time)
    }

    /// Judges a run of the decoder by its exit and its diagnostics, and
    /// derives the time between two frames in milliseconds.
    ///
    /// Fails with `ExternalTool` where the decoder did not exit successfully
    /// or its diagnostics do not give the interval.
    pub fn run_ffmpeg(&self, success: bool, diagnostics: &str) -> (interval: Result<
        u64,
        RenderError,
    >)
        ensures
            interval == run_outcome(success, diagnostics@),
    {
        if !success {
            return Err(RenderError::ExternalTool);
        }
        self.parse_ffmpeg_output(diagnostics)
    }

    /// Renders the frames that the decoder extracted, in their order.
    ///
    /// Fails with `Decode` where a frame is no valid raster: it does not hold
    /// exactly the bytes of its pixels, or is too large to be resampled.
    pub fn get_frames_from_file(&self, images: &Vec<SourceImage>) -> (frames: Result<
        Vec<String>,
        RenderError,
    >)
        requires
            self.wf(),
        ensures
            match frames {
                Ok(texts) => all_wf(images@) && frame_texts(texts@) == rendered(
                    images@,
                    self.width,
                    self.height,
                    self.config,
                ),
                Err(e) => !all_wf(images@) && e == RenderError::Decode,
            },
    {
        let mut result: Vec<String> = Vec::new();
        let mut i: usize = 0;
        while i < images.len()
            invariant
                i <= images.len(),
                self.wf(),
                result.len() == i,
                forall|k: int| 0 <= k < i ==> (#[trigger] images@[k]).wf(),
                forall|k: int|
                    0 <= k < i ==> (#[trigger] result@[k])@ == rendered(
                        images@,
                        self.width,
                        self.height,
                        self.config,
                    )[k],
            decreases images.len() - i,
        {
            if !images[i].check() {
                assert(!images@[i as int].wf());
                return Err(RenderError::Decode);
            }
            result.push(img_to_ascii_color(&images[i], self.height, self.width, &self.config));
            i += 1;
        }
        assert(frame_texts(result@) =~= rendered(images@, self.width, self.height, self.config));
        Ok(result)
    }

    /// Writes a set of frames as the text of a metadata record.
    pub fn save_cache(&self, frames: &Vec<String>, duration: u64) -> (text: String)
        ensures
            text@ == json_record(INTERVAL_KEY@, FRAMES_KEY@, duration, frame_texts(frames@)),
    {
        write_fields(INTERVAL_KEY, FRAMES_KEY, duration, frames)
    }

    /// Writes a set of frames as the text of a metadata record, and hands the
    /// text out only if it reads back as the same frames and interval. So a
    /// record that this function hands out, read by `from_json` or
    /// `into_parse` of any source, yields the frames and the interval that
    /// were written.
    pub fn checked_record(&self, frames: &Vec<String>, duration: u64) -> (record: Option<String>)
        ensures
            record_of(text_view(record), frame_texts(frames@), duration),
    {
        let text = self.save_cache(frames, duration);
        let same = match self.from_json(text.as_str()) {
            Ok(read) => read.1 == duration && same_texts(&read.0, frames),
            Err(_) => false,
        };
        if same {
            Some(text)
        } else {
            None
        }
    }

    /// Works out what an extraction yields from a run of the decoder: the
    /// interval from the run's diagnostics, the frames rendered from the
    /// images it extracted, and the record that caches both, if it reads
    /// back as what was written.
    ///
    /// Fails with `ExternalTool` where the run failed or its diagnostics do
    /// not give the interval, and with `Decode` where a frame is malformed.
    pub fn use_ffmpeg(&self, success: bool, diagnostics: &str, images: &Vec<SourceImage>) -> (made:
        Result<Extraction, RenderError>)
        requires
            self.wf(),
        ensures
            match made {
                Ok(extraction) => extraction_of(
                    *self,
                    success,
                    diagnostics@,
                    images@,
                    frame_texts(extraction.frames@),
                    extraction.interval,
                    text_view(extraction.record),
                ),
                Err(e) => extraction_failure(success, diagnostics@, images@, e),
            },
    {
        let msecs: u64 = match self.run_ffmpeg(success, diagnostics) {
            Ok(msecs) => msecs,
            Err(e) => {
                return Err(e);
            },
        };
        let frames = match self.get_frames_from_file(images) {
            Ok(frames) => frames,
            Err(e) => {
                return Err(e);
            },
        };
        let record = self.checked_record(&frames, msecs);
        Ok(Extraction { frames, interval: msecs, record })
    }
}

} // verus!
