use vstd::prelude::*;

verus! {

/// What can go wrong between a source file and its frames.
#[derive(Clone, Copy, Debug, PartialEq, Eq, Structural)]
pub enum RenderError {
    /// A source image or an extracted frame is no valid raster, or a source
    /// is too large to be hashed or resampled.
    Decode,
    /// The decoder process failed, or its diagnostics could not be read.
    ExternalTool,
    /// The cache's metadata record is not a valid frame set. Callers recover
    /// from this one by extracting the frames anew.
    CacheRead,
    /// The grid has a side of zero or is too large to be rendered.
    Geometry,
}

impl RenderError {
    /// A one-line description for the user.
    pub fn message(&self) -> (text: &'static str)
        ensures
            text@ == (match *self {
                RenderError::Decode => "Cannot decode image."@,
                RenderError::ExternalTool => "Cannot extract frames with the external decoder."@,
                RenderError::CacheRead => "Cannot parse cache file."@,
                RenderError::Geometry => "Cannot render to a grid of this size."@,
            }),
    {
        match self {
            RenderError::Decode => "Cannot decode image.",
            RenderError::ExternalTool => "Cannot extract frames with the external decoder.",
            RenderError::CacheRead => "Cannot parse cache file.",
            RenderError::Geometry => "Cannot render to a grid of this size.",
        }
    }
}

} // verus!
