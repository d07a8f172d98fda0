use crate::error::RenderError;
use vstd::prelude::*;

verus! {

/// One pixel: red, green, blue and alpha.
#[derive(Clone, Copy, Debug, PartialEq, Eq, Structural)]
pub struct Rgba {
    pub r: u8,
    pub g: u8,
    pub b: u8,
    pub a: u8,
}

/// A decoded raster: `width * height` pixels, row by row from the top left,
/// four bytes (red, green, blue, alpha) per pixel.
#[derive(Debug)]
pub struct SourceImage {
    pub width: u32,
    pub height: u32,
    pub rgba: Vec<u8>,
}

/// The most pixels that a source may have. The resampling adds up, in 32
/// bits, the values of the pixels that make one sample and half their number:
/// with this many values of 255 the sum still fits.
pub const MAX_PIXELS: u32 = 0x100_0000;

/// Whether a raster of the given size is small enough to be resampled.
pub open spec fn samplable(width: int, height: int) -> bool {
    width * height <= MAX_PIXELS
}

/// Bytes that a raster of the given size holds.
pub open spec fn raster_len(width: int, height: int) -> int {
    4 * width * height
}

/// The pixel at column `x` of row `y` in a raster that is `width` pixels wide.
pub open spec fn pixel_at(rgba: Seq<u8>, width: int, x: int, y: int) -> Rgba {
    let at = 4 * (y * width + x);
    Rgba { r: rgba[at], g: rgba[at + 1], b: rgba[at + 2], a: rgba[at + 3] }
}

/// What `image::DynamicImage::thumbnail_exact` makes of an RGBA raster of
/// `width` by `height` pixels when asked for `nwidth` by `nheight` pixels.
pub uninterp spec fn thumbnail_rgba(
    rgba: Seq<u8>,
    width: u32,
    height: u32,
    nwidth: u32,
    nheight: u32,
) -> Seq<u8>;

/// What `image::DynamicImage::grayscale` makes of an RGBA raster of `width` by
/// `height` pixels, read back as RGBA.
pub uninterp spec fn grayscale_rgba(rgba: Seq<u8>, width: u32, height: u32) -> Seq<u8>;

/// Calls `image::DynamicImage::thumbnail_exact` on an 8-bit RGBA image. The
/// image is made of the bytes with `image::RgbaImage::from_raw`, and the
/// result is read back with `to_rgba8` and `into_raw`.
///
/// Trusted: the result is a function of the arguments, named
/// [`thumbnail_rgba`], and has exactly `nwidth * nheight` pixels. Nothing is
/// claimed about the pixels. Left out are bytes that `from_raw` refuses,
/// sizes whose buffer `image` cannot allocate, and sources of more than
/// [`MAX_PIXELS`] pixels: `image` adds up the pixels of one sample and half
/// their number, each channel in a `u32`, and a sample is made of the
/// source's pixels at most.
#[verifier::external_body]
pub(crate) fn thumbnail_exact(
    rgba: &Vec<u8>,
    width: u32,
    height: u32,
    nwidth: u32,
    nheight: u32,
) -> (out: Vec<u8>)
    requires
        rgba@.len() == raster_len(width as int, height as int),
        samplable(width as int, height as int),
        raster_len(nwidth as int, nheight as int) <= usize::MAX,
    ensures
        out@ == thumbnail_rgba(rgba@, width, height, nwidth, nheight),
        out@.len() == raster_len(nwidth as int, nheight as int),
{
    let source = image::RgbaImage::from_raw(width, height, rgba.clone()).unwrap();
    image::DynamicImage::ImageRgba8(source).thumbnail_exact(nwidth, nheight).to_rgba8().into_raw()
}

/// Calls `image::DynamicImage::grayscale` on an 8-bit RGBA image. The image
/// is made of the bytes with `image::RgbaImage::from_raw`, and the result is
/// read back with `to_rgba8` and `into_raw`.
///
/// Trusted: the result is a function of the arguments, named
/// [`grayscale_rgba`], and has as many pixels as the argument. Nothing is
/// claimed about the pixels. Left out are bytes that `from_raw` refuses.
#[verifier::external_body]
pub(crate) fn grayscale(rgba: &Vec<u8>, width: u32, height: u32) -> (out: Vec<u8>)
    requires
        rgba@.len() == raster_len(width as int, height as int),
    ensures
        out@ == grayscale_rgba(rgba@, width, height),
        out@.len() == raster_len(width as int, height as int),
{
    let source = image::RgbaImage::from_raw(width, height, rgba.clone()).unwrap();
    image::DynamicImage::ImageRgba8(source).grayscale().to_rgba8().into_raw()
}

impl Clone for SourceImage {
    /// A copy has the same size and the same bytes.
    fn clone(&self) -> (copy: SourceImage)
        ensures
            copy.width == self.width,
            copy.height == self.height,
            copy.rgba@ == self.rgba@,
    {
        SourceImage { width: self.width, height: self.height, rgba: self.rgba.clone() }
    }
}

impl SourceImage {
    /// The raster holds exactly the bytes of its pixels, and is small enough
    /// to be resampled.
    pub open spec fn wf(&self) -> bool {
        &&& self.rgba@.len() == raster_len(self.width as int, self.height as int)
        &&& samplable(self.width as int, self.height as int)
    }

    /// Tells whether the raster holds exactly the bytes of its pixels and is
    /// small enough to be resampled.
    pub fn check(&self) -> (ok: bool)
        ensures
            ok == self.wf(),
    {
        assert(self.width * self.height <= 0xffff_ffff * 0xffff_ffff) by (nonlinear_arith)
            requires
                0 <= self.width <= 0xffff_ffff,
                0 <= self.height <= 0xffff_ffff,
        ;
        let pixels: u128 = (self.width as u128) * (self.height as u128);
        let wanted: u128 = 4 * pixels;
        assert(wanted == raster_len(self.width as int, self.height as int)) by (nonlinear_arith)
            requires
                wanted == 4 * (self.width * self.height),
        ;
        self.rgba.len() as u128 == wanted && pixels <= MAX_PIXELS as u128
    }

    /// Takes a raster's size and bytes. Fails with `Decode` where the bytes
    /// are not exactly `width * height` pixels, or the raster has more than
    /// `MAX_PIXELS` pixels.
    pub fn new(width: u32, height: u32, rgba: Vec<u8>) -> (made: Result<SourceImage, RenderError>)
        ensures
            made == (if (SourceImage { width, height, rgba }).wf() {
                Ok::<SourceImage, RenderError>(SourceImage { width, height, rgba })
            } else {
                Err::<SourceImage, RenderError>(RenderError::Decode)
            }),
    {
        let made = SourceImage { width, height, rgba };
        if made.check() {
            Ok(made)
        } else {
            Err(RenderError::Decode)
        }
    }
}

} // verus!
