//! The picture at the top of the window, as pixels.

use vstd::prelude::*;

verus! {

/// Bytes that one pixel takes: red, green, blue and alpha.
pub const BYTES_PER_PIXEL: usize = 4;

/// Why some bytes gave no picture.
#[derive(Clone, Copy, Debug, PartialEq, Eq, Structural)]
pub enum PictureError {
    /// The bytes are no image that the decoder knows.
    Undecodable,
    /// The pixels do not fill the width and height that came with them.
    WrongLength,
}

/// A picture, pixel by pixel and row by row, four bytes to the pixel.
#[derive(Clone, Debug, PartialEq, Eq)]
pub struct Picture {
    /// Red, green, blue and alpha of each pixel.
    pub pixels: Vec<u8>,
    /// Pixels in a row.
    pub width: usize,
    /// Rows.
    pub height: usize,
}

/// Whether a run of bytes of this length fills a picture of this size.
pub open spec fn fills(len: nat, width: int, height: int) -> bool {
    len == width * height * BYTES_PER_PIXEL
}

/// Whether `picture` is what these pixels and this size make: the picture
/// that holds just them if the pixels fill the size, and `WrongLength` if
/// they do not.
pub open spec fn made_of(
    picture: Result<Picture, PictureError>,
    pixels: Seq<u8>,
    width: u32,
    height: u32,
) -> bool {
    match picture {
        Ok(p) => {
            &&& fills(pixels.len(), width as int, height as int)
            &&& p.pixels@ == pixels
            &&& p.width == width
            &&& p.height == height
        },
        Err(reason) => {
            &&& !fills(pixels.len(), width as int, height as int)
            &&& reason == PictureError::WrongLength
        },
    }
}

/// Has the image crate decode a file held in memory and turn it into
/// pixels of four bytes: `ImageReader::new` on a `Cursor`, then
/// `with_guessed_format`, `decode`, `to_rgba8`, `dimensions` and `into_raw`.
/// `None` stands for either failure, of telling the format or of decoding.
///
/// Trusted, with nothing claimed: which files the decoder takes depends on
/// how the image crate was built and on the hooks that the process has
/// registered with it, so whatever comes back is checked by
/// `Picture::from_decoded`.
#[verifier::external_body]
fn decode_rgba(bytes: &[u8]) -> (decoded: Option<(Vec<u8>, u32, u32)>) {
    let reader = image::ImageReader::new(std::io::Cursor::new(bytes)).with_guessed_format().ok()?;
    let rgba = reader.decode().ok()?.to_rgba8();
    let (width, height) = rgba.dimensions();
    Some((rgba.into_raw(), width, height))
}

impl Picture {
    /// A picture is well formed when its pixels fill its width and height,
    /// which is what a toolkit asks of the buffer it draws from.
    pub open spec fn wf(&self) -> bool {
        fills(self.pixels@.len(), self.width as int, self.height as int)
    }

    /// Makes a picture of pixels and their size, if the pixels fill it.
    pub fn from_rgba(pixels: Vec<u8>, width: u32, height: u32) -> (picture: Result<
        Picture,
        PictureError,
    >)
        ensures
            made_of(picture, pixels@, width, height),
            picture matches Ok(p) ==> p.wf(),
    {
        assert(width * height <= u64::MAX) by (nonlinear_arith)
            requires
                width <= u32::MAX,
                height <= u32::MAX,
        ;
        let area: u64 = (width as u64) * (height as u64);
        let len: u64 = pixels.len() as u64;
        if len % 4 == 0 && len / 4 == area {
            Ok(Picture { pixels, width: width as usize, height: height as usize })
        } else {
            Err(PictureError::WrongLength)
        }
    }

    /// Makes a picture of what a decoder gave: of nothing, `Undecodable`;
    /// of pixels and their size, what `from_rgba` makes of them.
    pub fn from_decoded(decoded: Option<(Vec<u8>, u32, u32)>) -> (picture: Result<
        Picture,
        PictureError,
    >)
        ensures
            match decoded {
                Some((pixels, width, height)) => made_of(picture, pixels@, width, height),
                None => picture == Err::<Picture, PictureError>(PictureError::Undecodable),
            },
            picture matches Ok(p) ==> p.wf(),
    {
        match decoded {
            Some((pixels, width, height)) => Picture::from_rgba(pixels, width, height),
            None => Err(PictureError::Undecodable),
        }
    }

    /// Decodes an image file held in memory: the bytes go to the decoder as
    /// they are, and `from_decoded` makes the picture of what comes back.
    /// Which bytes the decoder takes is its own business and that of the
    /// process it runs in; whatever it makes of them, a picture that comes
    /// out is well formed.
    pub fn decode(bytes: &[u8]) -> (picture: Result<Picture, PictureError>)
        ensures
            picture matches Ok(p) ==> p.wf(),
    {
        Picture::from_decoded(decode_rgba(bytes))
    }
}

} // verus!
