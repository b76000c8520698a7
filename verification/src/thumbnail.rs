//! Thumbnails between the decoder and the renderer.
//!
//! The bytes of a thumbnail are decoded outside this library. What comes out
//! is checked here before it is handed on: the renderer reads four bytes for
//! every pixel of the size it is given, so the buffer has to hold exactly so
//! many.

use vstd::prelude::*;
use crate::cache::ImageError;

verus! {

/// What the decoder returned: a size and a buffer, of which nothing is known
/// yet.
#[derive(Debug)]
pub struct RawImage {
    pub width: u32,
    pub height: u32,
    pub rgba: Vec<u8>,
}

pub ghost struct ImageView {
    pub width: u32,
    pub height: u32,
    pub rgba: Seq<u8>,
}

impl View for RawImage {
    type V = ImageView;

    open spec fn view(&self) -> ImageView {
        ImageView { width: self.width, height: self.height, rgba: self.rgba@ }
    }
}

impl ImageView {
    /// The buffer holds four bytes for every pixel, no more and no fewer.
    pub open spec fn is_whole(self) -> bool {
        self.rgba.len() == self.width * self.height * 4
    }
}

/// A decoded thumbnail whose buffer holds four bytes, red, green, blue and
/// alpha, for every pixel of its size.
#[derive(Debug)]
pub struct Pixels {
    width: u32,
    height: u32,
    rgba: Vec<u8>,
}

impl View for Pixels {
    type V = ImageView;

    closed spec fn view(&self) -> ImageView {
        ImageView { width: self.width, height: self.height, rgba: self.rgba@ }
    }
}

/// What becomes of a decoder's result: an image whose buffer is whole is
/// accepted as it is, anything else is an error of decoding.
pub open spec fn accepted(raw: Option<ImageView>) -> Result<ImageView, ImageError> {
    match raw {
        Some(image) => if image.is_whole() {
            Ok(image)
        } else {
            Err(ImageError::Decode)
        },
        None => Err(ImageError::Decode),
    }
}

/// The view of a result, for contracts.
pub open spec fn pixels_view(r: Result<Pixels, ImageError>) -> Result<ImageView, ImageError> {
    match r {
        Ok(pixels) => Ok(pixels@),
        Err(e) => Err(e),
    }
}

/// Accepts or rejects what the decoder returned: see [`accepted`].
pub fn accept(raw: Option<RawImage>) -> (r: Result<Pixels, ImageError>)
    ensures
        pixels_view(r) == accepted(
            match raw {
                Some(image) => Some(image@),
                None => None,
            },
        ),
        r matches Ok(pixels) ==> pixels.wf(),
{
    match raw {
        None => Err(ImageError::Decode),
        Some(image) => {
            assert(image.width * image.height * 4 <= u32::MAX * u32::MAX * 4) by (nonlinear_arith)
                requires
                    0 <= image.width <= u32::MAX,
                    0 <= image.height <= u32::MAX,
            ;
            let wanted: u128 = image.width as u128 * image.height as u128 * 4;
            if image.rgba.len() as u128 == wanted {
                Ok(Pixels { width: image.width, height: image.height, rgba: image.rgba })
            } else {
                Err(ImageError::Decode)
            }
        },
    }
}

impl Pixels {
    /// The buffer is whole.
    pub closed spec fn wf(&self) -> bool {
        self@.is_whole()
    }

    /// Sound pixels hold four bytes for every pixel of their size.
    pub proof fn lemma_wf(&self)
        requires
            self.wf(),
        ensures
            self@.is_whole(),
    {
    }

    pub fn width(&self) -> (r: u32)
        ensures
            r == self@.width,
    {
        self.width
    }

    pub fn height(&self) -> (r: u32)
        ensures
            r == self@.height,
    {
        self.height
    }

    /// The buffer: rows from top to bottom, four bytes per pixel.
    pub fn rgba(&self) -> (r: &Vec<u8>)
        ensures
            r@ == self@.rgba,
    {
        &self.rgba
    }
}

} // verus!
