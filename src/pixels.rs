//! Decoded images as RGBA8 pixel buffers.

use vstd::prelude::*;

verus! {

/// What an image is: its size in pixels and its bytes, four per pixel
/// (red, green, blue, alpha), row after row with no padding.
pub ghost struct ImageModel {
    pub width: nat,
    pub height: nat,
    pub bytes: Seq<u8>,
}

/// A usable image: not empty, its row byte count and its row count fit in
/// 32 bits, and it holds exactly four bytes per pixel.
pub open spec fn valid_image(m: ImageModel) -> bool {
    &&& m.width >= 1
    &&& m.height >= 1
    &&& 4 * m.width <= u32::MAX
    &&& m.height <= u32::MAX
    &&& m.bytes.len() == m.width * m.height * 4
}

/// Where the pixel in column `x` of row `y` starts.
pub open spec fn pixel_offset(width: nat, x: nat, y: nat) -> nat {
    4 * (y * width + x)
}

/// One pixel, RGBA8.
#[derive(Clone, Copy, Debug, PartialEq, Eq, Structural)]
pub struct Rgba {
    pub r: u8,
    pub g: u8,
    pub b: u8,
    pub a: u8,
}

/// The pixel in column `x` of row `y`.
pub open spec fn pixel_at(m: ImageModel, x: nat, y: nat) -> Rgba {
    let i = pixel_offset(m.width, x, y) as int;
    Rgba { r: m.bytes[i], g: m.bytes[i + 1], b: m.bytes[i + 2], a: m.bytes[i + 3] }
}

/// A pixel's four bytes lie inside the image.
pub proof fn lemma_pixel_in_bounds(m: ImageModel, x: nat, y: nat)
    requires
        valid_image(m),
        x < m.width,
        y < m.height,
    ensures
        pixel_offset(m.width, x, y) + 4 <= m.bytes.len(),
{
    assert(y * m.width + x + 1 <= m.width * m.height) by (nonlinear_arith)
        requires
            x < m.width,
            y < m.height,
    ;
}

/// The model of a `width` by `height` image holding `bytes`.
pub open spec fn image_of(width: nat, height: nat, bytes: Seq<u8>) -> ImageModel {
    ImageModel { width, height, bytes }
}

/// The first reason, if any, why `len` bytes are no `width` by `height`
/// image.
pub open spec fn pixel_check(width: nat, height: nat, len: nat) -> Option<PixelError> {
    if width == 0 || height == 0 {
        Some(PixelError::Empty)
    } else if 4 * width > u32::MAX {
        Some(PixelError::TooWide)
    } else if len != width * height * 4 {
        Some(PixelError::LengthMismatch)
    } else {
        None
    }
}

/// Why bytes were refused as an image.
#[derive(Clone, Copy, Debug, PartialEq, Eq, Structural)]
pub enum PixelError {
    /// Width or height is zero.
    Empty,
    /// A row of the image is more than a 32-bit byte count can describe.
    TooWide,
    /// The byte count is not four per pixel.
    LengthMismatch,
}


/// An image ready for upload: RGBA8, row-major, without padding.
pub struct PixelBuffer {
    width: u32,
    height: u32,
    bytes: Vec<u8>,
}

impl View for PixelBuffer {
    type V = ImageModel;

    closed spec fn view(&self) -> ImageModel {
        ImageModel { width: self.width as nat, height: self.height as nat, bytes: self.bytes@ }
    }
}

impl PixelBuffer {
    pub open spec fn wf(&self) -> bool {
        valid_image(self@)
    }

    /// Takes `bytes` as a `width` by `height` RGBA8 image.
    pub fn from_rgba8(width: u32, height: u32, bytes: Vec<u8>) -> (r: Result<Self, PixelError>)
        ensures
            r is Ok <==> (pixel_check(width as nat, height as nat, bytes@.len()) is None),
            r matches Err(e) ==> pixel_check(width as nat, height as nat, bytes@.len()) == Some(e),
            r matches Ok(b) ==> b.wf() && b@ == image_of(width as nat, height as nat, bytes@),
    {
        if width == 0 || height == 0 {
            return Err(PixelError::Empty);
        }
        if width > u32::MAX / 4 {
            return Err(PixelError::TooWide);
        }
        assert((width as nat) * (height as nat) * 4 <= (u32::MAX as nat) * (u32::MAX as nat))
            by (nonlinear_arith)
            requires
                4 * width <= u32::MAX,
                height <= u32::MAX,
        ;
        let expected: u64 = (width as u64) * (height as u64) * 4;
        if bytes.len() as u64 != expected {
            return Err(PixelError::LengthMismatch);
        }
        Ok(PixelBuffer { width, height, bytes })
    }

    pub fn width(&self) -> (r: u32)
        ensures
            r == self@.width,
    {
        self.width
    }

    pub fn height(&self) -> (r: u32)
        ensures
            r == self@.height,
    {
        self.height
    }

    /// The raw bytes, four per pixel, row after row.
    pub fn bytes(&self) -> (r: &Vec<u8>)
        ensures
            r@ == self@.bytes,
    {
        &self.bytes
    }

    /// The pixel in column `x` of row `y`.
    pub fn pixel(&self, x: u32, y: u32) -> (r: Rgba)
        requires
            self.wf(),
            x < self@.width,
            y < self@.height,
        ensures
            r == pixel_at(self@, x as nat, y as nat),
    {
        proof {
            lemma_pixel_in_bounds(self@, x as nat, y as nat);
        }
        // The vector's length bounds the index arithmetic below.
        let _len: usize = self.bytes.len();
        let i: usize = 4 * ((y as usize) * (self.width as usize) + (x as usize));
        Rgba { r: self.bytes[i], g: self.bytes[i + 1], b: self.bytes[i + 2], a: self.bytes[i + 3] }
    }
}

} // verus!
