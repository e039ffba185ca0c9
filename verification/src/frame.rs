//! Decoded images and their scaling to the size of the output.

use vstd::prelude::*;

verus! {

/// The length of a buffer of `width` by `height` pixels, four bytes each.
pub open spec fn frame_len(width: u32, height: u32) -> int {
    4 * width * height
}

/// A decoded image: its pixels row by row, four bytes to a pixel in the
/// order red, green, blue, alpha.
#[derive(Debug)]
pub struct SourceImage {
    width: u32,
    height: u32,
    pixels: Vec<u8>,
}

impl SourceImage {
    /// The image's width in pixels.
    pub closed spec fn spec_width(&self) -> u32 {
        self.width
    }

    /// The image's height in pixels.
    pub closed spec fn spec_height(&self) -> u32 {
        self.height
    }

    /// The image's bytes.
    pub closed spec fn spec_pixels(&self) -> Seq<u8> {
        self.pixels@
    }

    /// The buffer holds exactly the image's pixels.
    pub open spec fn wf(&self) -> bool {
        self.spec_pixels().len() == frame_len(self.spec_width(), self.spec_height())
    }

    /// An image of the given size over the given bytes; none where their
    /// number is not that of the pixels.
    pub fn new(width: u32, height: u32, pixels: Vec<u8>) -> (image: Option<SourceImage>)
        ensures
            image is Some <==> pixels@.len() == frame_len(width, height),
            image matches Some(made) ==> {
                &&& made.wf()
                &&& made.spec_width() == width
                &&& made.spec_height() == height
                &&& made.spec_pixels() == pixels@
            },
    {
        let held = pixels.len();
        match frame_size(width, height) {
            Some(len) => if held == len {
                Some(SourceImage { width, height, pixels })
            } else {
                None
            },
            None => None,
        }
    }

    /// The image's width in pixels.
    #[verifier::when_used_as_spec(spec_width)]
    pub fn width(&self) -> (width: u32)
        ensures
            width == self.spec_width(),
    {
        self.width
    }

    /// The image's height in pixels.
    #[verifier::when_used_as_spec(spec_height)]
    pub fn height(&self) -> (height: u32)
        ensures
            height == self.spec_height(),
    {
        self.height
    }

    /// The image's bytes.
    pub fn pixels(&self) -> (pixels: &Vec<u8>)
        ensures
            pixels@ == self.spec_pixels(),
    {
        &self.pixels
    }
}

/// The length of a buffer of `width` by `height` pixels; none where it is
/// more than a buffer can hold.
pub fn frame_size(width: u32, height: u32) -> (len: Option<usize>)
    ensures
        match len {
            Some(n) => n == frame_len(width, height),
            None => frame_len(width, height) > usize::MAX,
        },
{
    let wanted: u128 = 4 * (area(width, height) as u128);
    if wanted <= usize::MAX as u128 {
        Some(wanted as usize)
    } else {
        None
    }
}

/// The number of pixels of an image.
fn area(width: u32, height: u32) -> (pixels: u64)
    ensures
        pixels == width * height,
        4 * pixels == frame_len(width, height),
{
    assert(width * height <= 0xFFFF_FFFF * 0xFFFF_FFFF) by (nonlinear_arith)
        requires
            width <= 0xFFFF_FFFF,
            height <= 0xFFFF_FFFF,
    ;
    assert(4 * (width * height) == 4 * width * height) by (nonlinear_arith);
    width as u64 * height as u64
}

/// The longest side, in pixels, of an image that is scaled or scaled to.
///
/// The scaler places its samples in single-precision arithmetic. A sample
/// position is the product of a pixel's centre and the ratio of the two
/// sizes, each rounded once, so that it lies within `side / 2^23` pixels
/// of where it belongs. Up to this limit that is an eighth of a pixel,
/// and the pixel under the sample is always among those weighed. Far
/// beyond it the position can fall past the last pixel, where no pixel
/// has any weight.
pub const MAX_SCALED_SIDE: u32 = 1_048_576;

/// Whether an image of one size can be scaled to another on this machine.
/// The scaled image has to fit the largest buffer that can be allocated.
/// Where the sizes differ, so has the image of four-byte samples that is
/// built on the way, and no side of either size may pass
/// `MAX_SCALED_SIDE`.
pub open spec fn resizable(from_width: u32, from_height: u32, width: u32, height: u32) -> bool {
    &&& frame_len(width, height) <= isize::MAX
    &&& (from_width != width || from_height != height) ==> {
        &&& 4 * frame_len(from_width, height) <= isize::MAX
        &&& from_width <= MAX_SCALED_SIDE
        &&& from_height <= MAX_SCALED_SIDE
        &&& width <= MAX_SCALED_SIDE
        &&& height <= MAX_SCALED_SIDE
    }
}

/// Whether an image can be scaled to the given size on this machine.
pub fn can_resize(source: &SourceImage, width: u32, height: u32) -> (ok: bool)
    ensures
        ok == resizable(source.spec_width(), source.spec_height(), width, height),
{
    let limit: u128 = isize::MAX as u128;
    let scaled: u128 = 4 * (area(width, height) as u128);
    if scaled > limit {
        return false;
    }
    if source.width == width && source.height == height {
        return true;
    }
    let between: u128 = 16 * (area(source.width, height) as u128);
    between <= limit && source.width <= MAX_SCALED_SIDE && source.height <= MAX_SCALED_SIDE
        && width <= MAX_SCALED_SIDE && height <= MAX_SCALED_SIDE
}

/// What `image::imageops::resize` with the triangle filter makes of an
/// image of four-byte pixels: the bytes of the image scaled from one size
/// to another.
pub uninterp spec fn triangle_resized(
    pixels: Seq<u8>,
    from_width: u32,
    from_height: u32,
    width: u32,
    height: u32,
) -> Seq<u8>;

/// Scales an image with `image::imageops::resize` and
/// `FilterType::Triangle`, on a view of the bytes that
/// `ImageBuffer::from_raw` gives, and takes the bytes out with `into_raw`.
///
/// Nothing of this is proved. The contract names the bytes that come back
/// and says two things of them. Their number is that of the pixels of the
/// new size, four bytes each: `resize` fills a buffer that
/// `ImageBuffer::new` made for that size. And where the new size is the
/// old one they are the image's own bytes: `resize` then copies pixel by
/// pixel in place of sampling.
///
/// The `requires` keeps the call from panicking. The image is well formed,
/// so that `from_raw` finds the buffer long enough. The buffers that
/// `ImageBuffer::new` allocates fit. And the sides stay within
/// `MAX_SCALED_SIDE`, so that each sample has a pixel with a weight above
/// zero and the weights divide by a sum that is not zero.
#[verifier::external_body]
pub(crate) fn resize_triangle(source: &SourceImage, width: u32, height: u32) -> (scaled: Vec<u8>)
    requires
        source.wf(),
        resizable(source.spec_width(), source.spec_height(), width, height),
    ensures
        scaled@ == triangle_resized(
            source.spec_pixels(),
            source.spec_width(),
            source.spec_height(),
            width,
            height,
        ),
        scaled@.len() == frame_len(width, height),
        source.spec_width() == width && source.spec_height() == height ==> scaled@
            == source.spec_pixels(),
{
    let view = image::ImageBuffer::<image::Rgba<u8>, &[u8]>::from_raw(
        source.width,
        source.height,
        source.pixels.as_slice(),
    ).unwrap();
    image::imageops::resize(&view, width, height, image::imageops::FilterType::Triangle).into_raw()
}

} // verus!
