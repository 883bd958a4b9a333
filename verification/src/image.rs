//! The captured image.

use vstd::prelude::*;
use crate::error::Error;

verus! {

/// Number of bytes that hold one pixel of a source image.
pub const BYTES_PER_PIXEL: usize = 4;

/// Width and height of a raster, in pixels.
#[derive(Clone, Copy, Debug, PartialEq, Eq)]
pub struct Size {
    pub width: u32,
    pub height: u32,
}

/// A source image as the contracts see it.
pub struct ImageModel {
    pub size: Size,
    pub pixels: Seq<u8>,
}

impl ImageModel {
    /// What every source image satisfies: it has a positive width and
    /// height, and its buffer holds exactly its pixels.
    pub open spec fn valid(self) -> bool {
        is_raster(self.size, self.pixels.len())
    }
}

/// Whether a buffer of `length` bytes holds a raster of the given size:
/// width and height are positive, and the buffer has `BYTES_PER_PIXEL` bytes
/// for each pixel.
pub open spec fn is_raster(size: Size, length: nat) -> bool {
    &&& size.width > 0
    &&& size.height > 0
    &&& length == size.width * size.height * BYTES_PER_PIXEL
}

/// The captured image that a session shows. It is made once and never
/// changes.
#[derive(Debug)]
pub struct SourceImage {
    size: Size,
    pixels: Vec<u8>,
}

impl View for SourceImage {
    type V = ImageModel;

    closed spec fn view(&self) -> ImageModel {
        ImageModel { size: self.size, pixels: self.pixels@ }
    }
}

impl SourceImage {
    /// Every source image that exists is valid.
    #[verifier::type_invariant]
    pub open spec fn well_formed(self) -> bool {
        self@.valid()
    }

    /// The image of the given size whose pixels are `pixels`, row by row.
    /// Fails with `Error::Image` unless width and height are positive and
    /// `pixels` has `BYTES_PER_PIXEL` bytes for each pixel.
    pub fn new(width: u32, height: u32, pixels: Vec<u8>) -> (r: Result<SourceImage, Error>)
        ensures
            r is Ok <==> is_raster(Size { width, height }, pixels@.len()),
            r matches Ok(image) ==> image@ == (ImageModel {
                size: Size { width, height },
                pixels: pixels@,
            }),
            r matches Err(e) ==> e == Error::Image,
    {
        if width == 0 || height == 0 {
            return Err(Error::Image);
        }
        assert(width * height <= 0xFFFF_FFFE_0000_0001) by (nonlinear_arith)
            requires
                width <= 0xFFFF_FFFF,
                height <= 0xFFFF_FFFF,
        ;
        let area: u128 = (width as u128) * (height as u128);
        assert(area * BYTES_PER_PIXEL <= u128::MAX);
        let wanted: u128 = area * (BYTES_PER_PIXEL as u128);
        if pixels.len() as u128 != wanted {
            return Err(Error::Image);
        }
        Ok(SourceImage { size: Size { width, height }, pixels })
    }

    /// Width and height of the image.
    pub fn size(&self) -> (size: Size)
        ensures
            size == self@.size,
            size.width > 0,
            size.height > 0,
    {
        proof {
            use_type_invariant(self);
        }
        self.size
    }

    /// The pixels of the image, row by row.
    pub fn pixels(&self) -> (pixels: &Vec<u8>)
        ensures
            pixels@ == self@.pixels,
            pixels@.len() == self@.size.width * self@.size.height * BYTES_PER_PIXEL,
    {
        proof {
            use_type_invariant(self);
        }
        &self.pixels
    }
}

} // verus!
