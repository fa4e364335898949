//! The captured image as plain data, and the cut that an export takes out
//! of it.

use crate::geometry::{CropRegion, Size};
use vstd::arithmetic::div_mod::{
    lemma_fundamental_div_mod, lemma_mod_pos_bound, lemma_multiply_divide_lt,
};
use vstd::prelude::*;

verus! {

/// What a [`Bitmap`] holds: its size, and its pixels row by row from the top
/// left, four bytes to a pixel (red, green, blue, alpha).
pub struct Raster {
    pub size: Size,
    pub pixels: Seq<u8>,
}

impl Raster {
    /// Whether there are exactly as many bytes as the size asks for.
    pub open spec fn wf(self) -> bool {
        self.pixels.len() == 4 * self.size.width * self.size.height
    }

    /// Channel `k` (0 to 3) of the pixel in column `x` of row `y`.
    pub open spec fn channel(self, x: int, y: int, k: int) -> u8 {
        self.pixels[4 * (y * self.size.width + x) + k]
    }

    /// Whether `self` is the part of `source` that `region` covers: it is
    /// as large as the region clipped to `source`, and its pixel at
    /// `(x, y)` is the pixel of `source` at that position counted from the
    /// clipped region's corner.
    pub open spec fn is_crop_of(self, source: Raster, region: CropRegion) -> bool {
        let part = region.clipped(source.size);
        &&& self.size == (Size { width: part.width, height: part.height })
        &&& self.wf()
        &&& forall|x: int, y: int, k: int|
            0 <= x < part.width && 0 <= y < part.height && 0 <= k < 4 ==> #[trigger] self.channel(
                x,
                y,
                k,
            ) == source.channel(part.x + x, part.y + y, k)
    }
}

/// An image of four bytes to a pixel. Every bitmap holds exactly
/// `4 * width * height` bytes.
#[derive(Debug, PartialEq, Eq)]
pub struct Bitmap {
    width: u32,
    height: u32,
    pixels: Vec<u8>,
}

impl View for Bitmap {
    type V = Raster;

    closed spec fn view(&self) -> Raster {
        Raster { size: Size { width: self.width, height: self.height }, pixels: self.pixels@ }
    }
}

/// Cuts `region` out of `bitmap` with `image::imageops::crop_imm` and
/// `SubImage::to_image`.
///
/// Trusted: `crop_imm` clips the region to the image (the corner to the
/// image's size, then the extent to what is left from the corner), and
/// `to_image` copies the pixel at each position of the clipped region into a
/// fresh buffer of exactly that size. `ImageBuffer::from_raw` accepts the
/// bytes because a bitmap holds `4 * width * height` of them.
#[verifier::external_body]
fn crop_imm(bitmap: &Bitmap, region: CropRegion) -> (out: Bitmap)
    requires
        bitmap@.wf(),
    ensures
        out@.is_crop_of(bitmap@, region),
{
    let source =
        image::RgbaImage::from_raw(bitmap.width, bitmap.height, bitmap.pixels.clone()).unwrap();
    let part = image::imageops::crop_imm(&source, region.x, region.y, region.width, region.height)
        .to_image();
    Bitmap { width: part.width(), height: part.height(), pixels: part.into_raw() }
}

impl Bitmap {
    #[verifier::type_invariant]
    spec fn holds_all_pixels(self) -> bool {
        self.pixels@.len() == 4 * self.width * self.height
    }

    /// Makes a bitmap of the given size from its bytes, if there are
    /// exactly `4 * width * height` of them.
    pub fn new(width: u32, height: u32, pixels: Vec<u8>) -> (made: Option<Bitmap>)
        ensures
            made is Some <==> pixels@.len() == 4 * width * height,
            made matches Some(b) ==> b@ == (Raster { size: Size { width, height }, pixels: pixels@ }),
    {
        assert(0 <= width * height <= 0xffff_ffff * 0xffff_ffff) by (nonlinear_arith)
            requires
                0 <= width <= 0xffff_ffff,
                0 <= height <= 0xffff_ffff,
        ;
        let area: u128 = (width as u128) * (height as u128);
        let wanted: u128 = 4 * area;
        assert(wanted == 4 * width * height) by (nonlinear_arith)
            requires
                wanted == 4 * (width * height),
        ;
        if pixels.len() as u128 == wanted {
            Some(Bitmap { width, height, pixels })
        } else {
            None
        }
    }

    /// The size in pixels.
    pub fn size(&self) -> (size: Size)
        ensures
            size == self@.size,
            self@.wf(),
    {
        proof {
            use_type_invariant(self);
        }
        Size { width: self.width, height: self.height }
    }

    /// The bytes, row by row from the top left, four to a pixel.
    pub fn pixels(&self) -> (bytes: &Vec<u8>)
        ensures
            bytes@ == self@.pixels,
            self@.wf(),
    {
        proof {
            use_type_invariant(self);
        }
        &self.pixels
    }

    /// The part of the bitmap that `region` covers, as a bitmap of its own.
    /// A region that reaches beyond the bitmap is clipped to it; an empty
    /// region gives a bitmap without pixels.
    pub fn crop(&self, region: CropRegion) -> (out: Bitmap)
        ensures
            out@.is_crop_of(self@, region),
    {
        proof {
            use_type_invariant(self);
        }
        crop_imm(self, region)
    }
}

impl Clone for Bitmap {
    fn clone(&self) -> (copy: Bitmap)
        ensures
            copy@ == self@,
    {
        proof {
            use_type_invariant(self);
        }
        Bitmap { width: self.width, height: self.height, pixels: self.pixels.clone() }
    }
}

/// A region without width or without height is cut out as a bitmap without
/// pixels.
pub proof fn lemma_degenerate_crop(out: Raster, source: Raster, region: CropRegion)
    requires
        out.is_crop_of(source, region),
        region.width == 0 || region.height == 0,
    ensures
        out.size.width == 0 || out.size.height == 0,
        out.pixels.len() == 0,
{
    let w = out.size.width as int;
    let h = out.size.height as int;
    assert(4 * w * h == 0) by (nonlinear_arith)
        requires
            w == 0 || h == 0,
    ;
}

/// Every byte of a raster is one channel of one of its pixels.
proof fn lemma_byte_is_channel(r: Raster, i: int)
    requires
        r.wf(),
        0 <= i < r.pixels.len(),
    ensures
        0 <= (i / 4) % (r.size.width as int) < r.size.width,
        0 <= (i / 4) / (r.size.width as int) < r.size.height,
        0 <= i % 4 < 4,
        r.pixels[i] == r.channel((i / 4) % (r.size.width as int), (i / 4) / (r.size.width as int), i % 4),
{
    let w = r.size.width as int;
    let h = r.size.height as int;
    let p = i / 4;
    assert(w > 0 && p < w * h) by (nonlinear_arith)
        requires
            0 <= i < 4 * w * h,
            p == i / 4,
            0 <= w,
            0 <= h,
    ;
    lemma_multiply_divide_lt(p, w, h);
    lemma_mod_pos_bound(p, w);
    lemma_fundamental_div_mod(p, w);
    assert(4 * ((p / w) * w + p % w) + i % 4 == i);
}

/// A crop is determined by the image and the region: two rasters that are
/// each the part of `source` under `region` are the same raster.
pub proof fn lemma_crop_unique(a: Raster, b: Raster, source: Raster, region: CropRegion)
    requires
        a.is_crop_of(source, region),
        b.is_crop_of(source, region),
    ensures
        a == b,
{
    assert forall|i: int| 0 <= i < a.pixels.len() implies a.pixels[i] == b.pixels[i] by {
        lemma_byte_is_channel(a, i);
        lemma_byte_is_channel(b, i);
    }
    assert(a.pixels =~= b.pixels);
}

/// Cutting out a region that covers the whole image gives the image.
pub proof fn lemma_crop_whole(out: Raster, source: Raster, region: CropRegion)
    requires
        source.wf(),
        out.is_crop_of(source, region),
        region.x == 0,
        region.y == 0,
        region.width >= source.size.width,
        region.height >= source.size.height,
    ensures
        out == source,
{
    assert forall|i: int| 0 <= i < out.pixels.len() implies out.pixels[i] == source.pixels[i] by {
        lemma_byte_is_channel(out, i);
        lemma_byte_is_channel(source, i);
    }
    assert(out.pixels =~= source.pixels);
}

} // verus!
