//! The image texture: its upload layout and in-place reloads.

use vstd::prelude::*;
use crate::pixels::{ImageModel, PixelBuffer, Rgba, valid_image, pixel_at, pixel_offset, lemma_pixel_in_bounds};

verus! {

/// How a buffer of pixel bytes is copied into a texture: where the first
/// row starts, how many bytes each row takes, how many rows form one layer,
/// and the extent copied.
#[derive(Clone, Copy, Debug, PartialEq, Eq, Structural)]
pub struct UploadLayout {
    pub offset: u64,
    pub bytes_per_row: u32,
    pub rows_per_image: u32,
    pub width: u32,
    pub height: u32,
    pub depth: u32,
}

/// The bytes a copy laid out by `l` reads from `data` for the texel in
/// column `x` of row `y` of the first layer, four bytes per texel.
pub open spec fn texel_source(l: UploadLayout, data: Seq<u8>, x: nat, y: nat) -> Seq<u8> {
    let start = l.offset + y * l.bytes_per_row + 4 * x;
    data.subrange(start as int, start + 4)
}

/// The layout that copies a whole `width` by `height` image from the
/// start of a tightly packed buffer into a single layer.
pub open spec fn packed_layout(width: nat, height: nat) -> UploadLayout {
    UploadLayout {
        offset: 0,
        bytes_per_row: (4 * width) as u32,
        rows_per_image: height as u32,
        width: width as u32,
        height: height as u32,
        depth: 1,
    }
}

/// The four bytes of a pixel, in order.
pub open spec fn pixel_bytes(p: Rgba) -> Seq<u8> {
    seq![p.r, p.g, p.b, p.a]
}

/// Uploading an image with its packed layout puts each source pixel in its
/// own texel: the rows follow each other with a stride of four bytes per
/// pixel, without gaps, and the copy reads exactly the image's bytes.
pub proof fn lemma_upload_is_exact(m: ImageModel)
    requires
        valid_image(m),
    ensures
        ({
            let l = packed_layout(m.width, m.height);
            &&& l.bytes_per_row == 4 * m.width
            &&& l.offset + l.bytes_per_row * l.rows_per_image == m.bytes.len()
            &&& l.width == m.width && l.height == m.height && l.depth == 1
            &&& forall|x: nat, y: nat|
                x < m.width && y < m.height ==> #[trigger] texel_source(l, m.bytes, x, y)
                    == pixel_bytes(pixel_at(m, x, y))
        }),
{
    let l = packed_layout(m.width, m.height);
    assert(l.bytes_per_row * l.rows_per_image == m.width * m.height * 4) by (nonlinear_arith)
        requires
            l.bytes_per_row == 4 * m.width,
            l.rows_per_image == m.height,
    ;
    assert forall|x: nat, y: nat| x < m.width && y < m.height implies #[trigger] texel_source(
        l,
        m.bytes,
        x,
        y,
    ) == pixel_bytes(pixel_at(m, x, y)) by {
        lemma_pixel_in_bounds(m, x, y);
        assert(y * l.bytes_per_row + 4 * x == pixel_offset(m.width, x, y)) by (nonlinear_arith)
            requires
                l.bytes_per_row == 4 * m.width,
        ;
        assert(texel_source(l, m.bytes, x, y) =~= pixel_bytes(pixel_at(m, x, y)));
    }
}

/// Why a reloaded image was not written to the texture.
#[derive(Clone, Copy, Debug, PartialEq, Eq, Structural)]
pub enum ReloadError {
    /// The file could not be read or decoded.
    Unreadable,
    /// The new image's size differs from the texture's.
    SizeMismatch { expected_width: u32, expected_height: u32, width: u32, height: u32 },
}


/// The texture that shows the image: its size is fixed by the first image,
/// and it holds the bytes last written to it.
pub struct TextureSlot {
    image: PixelBuffer,
}

impl View for TextureSlot {
    type V = ImageModel;

    closed spec fn view(&self) -> ImageModel {
        self.image@
    }
}

impl TextureSlot {
    pub open spec fn wf(&self) -> bool {
        valid_image(self@)
    }

    /// A texture sized to `initial`, holding it.
    pub fn create(initial: PixelBuffer) -> (r: Self)
        requires
            initial.wf(),
        ensures
            r.wf(),
            r@ == initial@,
    {
        TextureSlot { image: initial }
    }

    pub fn width(&self) -> (r: u32)
        ensures
            r == self@.width,
    {
        self.image.width()
    }

    pub fn height(&self) -> (r: u32)
        ensures
            r == self@.height,
    {
        self.image.height()
    }

    /// The bytes the texture holds, to be written with `upload_layout`.
    pub fn contents(&self) -> (r: &Vec<u8>)
        ensures
            r@ == self@.bytes,
    {
        self.image.bytes()
    }

    /// The layout of `contents` for a write into the texture.
    pub fn upload_layout(&self) -> (r: UploadLayout)
        requires
            self.wf(),
        ensures
            r == packed_layout(self@.width, self@.height),
    {
        let w = self.image.width();
        let h = self.image.height();
        UploadLayout { offset: 0, bytes_per_row: 4 * w, rows_per_image: h, width: w, height: h, depth: 1 }
    }

    /// Reads back the texel in column `x` of row `y`.
    pub fn pixel(&self, x: u32, y: u32) -> (r: Rgba)
        requires
            self.wf(),
            x < self@.width,
            y < self@.height,
        ensures
            r == pixel_at(self@, x as nat, y as nat),
    {
        self.image.pixel(x, y)
    }

    /// Writes `image` into the texture in place when its size is the
    /// texture's; otherwise refuses it and keeps what the texture holds.
    pub fn reload(&mut self, image: PixelBuffer) -> (r: Result<(), ReloadError>)
        requires
            old(self).wf(),
            image.wf(),
        ensures
            final(self).wf(),
            r is Ok <==> same_size(image@, old(self)@),
            r is Ok ==> final(self)@ == image@,
            r is Err ==> final(self)@ == old(self)@,
            r is Err ==> r == mismatch_error(old(self)@, image@),
    {
        let w = self.image.width();
        let h = self.image.height();
        if image.width() != w || image.height() != h {
            return Err(
                ReloadError::SizeMismatch {
                    expected_width: w,
                    expected_height: h,
                    width: image.width(),
                    height: image.height(),
                },
            );
        }
        self.image = image;
        Ok(())
    }
}

/// Two images of the same size.
pub open spec fn same_size(a: ImageModel, b: ImageModel) -> bool {
    a.width == b.width && a.height == b.height
}

/// The error that refuses `found` for a texture holding `current`.
pub open spec fn mismatch_error(current: ImageModel, found: ImageModel) -> Result<(), ReloadError> {
    Err(
        ReloadError::SizeMismatch {
            expected_width: current.width as u32,
            expected_height: current.height as u32,
            width: found.width as u32,
            height: found.height as u32,
        },
    )
}

} // verus!
