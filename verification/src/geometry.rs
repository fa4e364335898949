//! Points, rectangles and the mapping from window space to image pixels.
//!
//! Window space is measured in half pixels. An image of `w` pixels centred
//! in a window of `W` pixels is shifted by `(W - w) / 2` pixels, which is
//! `W - w` half pixels: on this grid the shift is a whole number whatever
//! the parities of the two sizes. Image space is measured in whole pixels.

use vstd::prelude::*;

verus! {

/// Half pixels per pixel.
pub const UNITS_PER_PIXEL: i64 = 2;

/// A position in window space, in half pixels.
#[derive(Clone, Copy, Debug, PartialEq, Eq, Structural)]
pub struct Point {
    pub x: i64,
    pub y: i64,
}

/// A rectangle in window space, given by two opposite corners.
///
/// Only a normalized rectangle has its corners in order; see
/// [`Rect::is_normalized`].
#[derive(Clone, Copy, Debug, PartialEq, Eq, Structural)]
pub struct Rect {
    pub min: Point,
    pub max: Point,
}

/// A size in whole pixels: that of the captured image, or of the window.
#[derive(Clone, Copy, Debug, PartialEq, Eq, Structural)]
pub struct Size {
    pub width: u32,
    pub height: u32,
}

/// The shift of the image within the window, in half pixels: a window
/// position `p` lies over the image position `p - offset`.
#[derive(Clone, Copy, Debug, PartialEq, Eq, Structural)]
pub struct ViewportOffset {
    pub x: i64,
    pub y: i64,
}

/// A rectangle in image space, in whole pixels: its top left corner and its
/// extent.
#[derive(Clone, Copy, Debug, PartialEq, Eq, Structural)]
pub struct CropRegion {
    pub x: u32,
    pub y: u32,
    pub width: u32,
    pub height: u32,
}

/// The rectangle spanned by two corners given in any order: on each axis
/// independently the smaller coordinate becomes `min`, the larger `max`.
pub open spec fn normalized(a: Point, b: Point) -> Rect {
    Rect {
        min: Point { x: if b.x < a.x { b.x } else { a.x }, y: if b.y < a.y { b.y } else { a.y } },
        max: Point { x: if b.x < a.x { a.x } else { b.x }, y: if b.y < a.y { a.y } else { b.y } },
    }
}

/// The whole pixels in a length of `d` half pixels: the length is cut down
/// to a whole number of pixels, a negative length counts as none, and one
/// beyond the largest `u32` counts as the largest.
pub open spec fn whole_pixels(d: int) -> int {
    if d <= 0 {
        0
    } else if d / (UNITS_PER_PIXEL as int) > u32::MAX {
        u32::MAX as int
    } else {
        d / (UNITS_PER_PIXEL as int)
    }
}

/// The shift that centres an image in a window: half the difference of the
/// two sizes in pixels, which is the difference itself in half pixels.
pub open spec fn centered_offset(window: Size, image: Size) -> ViewportOffset {
    ViewportOffset {
        x: (window.width - image.width) as i64,
        y: (window.height - image.height) as i64,
    }
}

/// The image region under a window rectangle: the rectangle's `min` corner
/// less the offset, and the rectangle's own extent, each in whole pixels.
pub open spec fn image_region(rect: Rect, offset: ViewportOffset) -> CropRegion {
    CropRegion {
        x: whole_pixels(rect.min.x - offset.x) as u32,
        y: whole_pixels(rect.min.y - offset.y) as u32,
        width: whole_pixels(rect.max.x - rect.min.x) as u32,
        height: whole_pixels(rect.max.y - rect.min.y) as u32,
    }
}

/// The window rectangle that lies over an image region: the region's
/// corners with the offset added back.
pub open spec fn window_rect(region: CropRegion, offset: ViewportOffset) -> Rect {
    Rect {
        min: Point {
            x: (offset.x + UNITS_PER_PIXEL * region.x) as i64,
            y: (offset.y + UNITS_PER_PIXEL * region.y) as i64,
        },
        max: Point {
            x: (offset.x + UNITS_PER_PIXEL * (region.x + region.width)) as i64,
            y: (offset.y + UNITS_PER_PIXEL * (region.y + region.height)) as i64,
        },
    }
}

/// The window rectangle that a centred image covers: it starts at the
/// centring offset and is as large as the image.
pub open spec fn centered_image_rect(window: Size, image: Size) -> Rect {
    Rect {
        min: Point {
            x: (window.width - image.width) as i64,
            y: (window.height - image.height) as i64,
        },
        max: Point {
            x: (window.width + image.width) as i64,
            y: (window.height + image.height) as i64,
        },
    }
}

/// The rectangle as large as the image that starts at the origin.
pub open spec fn origin_image_rect(image: Size) -> Rect {
    Rect {
        min: Point { x: 0, y: 0 },
        max: Point {
            x: (UNITS_PER_PIXEL * image.width) as i64,
            y: (UNITS_PER_PIXEL * image.height) as i64,
        },
    }
}

impl Point {
    /// The point at a whole-pixel position.
    pub fn from_pixels(x: i32, y: i32) -> (p: Point)
        ensures
            p.x == UNITS_PER_PIXEL * x,
            p.y == UNITS_PER_PIXEL * y,
    {
        Point { x: UNITS_PER_PIXEL * (x as i64), y: UNITS_PER_PIXEL * (y as i64) }
    }
}

impl Rect {
    /// Whether `min` is at or before `max` on both axes.
    pub open spec fn is_normalized(self) -> bool {
        self.min.x <= self.max.x && self.min.y <= self.max.y
    }

    /// The normalized rectangle spanned by two corners.
    pub fn from_corners(a: Point, b: Point) -> (r: Rect)
        ensures
            r == normalized(a, b),
    {
        let mut lo = a;
        let mut hi = b;
        fix_pos(&mut lo, &mut hi);
        Rect { min: lo, max: hi }
    }

    /// The window rectangle covered by an image that is centred in the
    /// window.
    pub fn centered_image(window: Size, image: Size) -> (r: Rect)
        ensures
            r == centered_image_rect(window, image),
    {
        Rect {
            min: Point {
                x: window.width as i64 - image.width as i64,
                y: window.height as i64 - image.height as i64,
            },
            max: Point {
                x: window.width as i64 + image.width as i64,
                y: window.height as i64 + image.height as i64,
            },
        }
    }

    /// The rectangle as large as the image whose `min` corner is the
    /// origin.
    pub fn origin_image(image: Size) -> (r: Rect)
        ensures
            r == origin_image_rect(image),
    {
        Rect {
            min: Point { x: 0, y: 0 },
            max: Point {
                x: UNITS_PER_PIXEL * (image.width as i64),
                y: UNITS_PER_PIXEL * (image.height as i64),
            },
        }
    }
}

impl CropRegion {
    /// The region that covers all of an image of the given size.
    pub open spec fn whole(image: Size) -> CropRegion {
        CropRegion { x: 0, y: 0, width: image.width, height: image.height }
    }

    /// The part of the region that lies inside an image of the given size:
    /// the corner is moved back to the image's far edge where it lies
    /// beyond it, and the extent is cut down to what the image holds from
    /// that corner on.
    pub open spec fn clipped(self, image: Size) -> CropRegion {
        let x = if self.x < image.width { self.x } else { image.width };
        let y = if self.y < image.height { self.y } else { image.height };
        CropRegion {
            x,
            y,
            width: if self.width < image.width - x { self.width } else { (image.width - x) as u32 },
            height: if self.height < image.height - y { self.height } else { (image.height - y) as u32 },
        }
    }
}

impl ViewportOffset {
    /// No shift: the image's corner is the window's corner.
    pub fn zero() -> (offset: ViewportOffset)
        ensures
            offset == (ViewportOffset { x: 0, y: 0 }),
    {
        ViewportOffset { x: 0, y: 0 }
    }

    /// The shift that centres an image of size `image` in a window of size
    /// `window`.
    pub fn centered(window: Size, image: Size) -> (offset: ViewportOffset)
        ensures
            offset == centered_offset(window, image),
    {
        ViewportOffset {
            x: window.width as i64 - image.width as i64,
            y: window.height as i64 - image.height as i64,
        }
    }
}

/// Puts two corners in order: after the call `pos_min` holds the smaller and
/// `pos_max` the larger coordinate on each axis.
pub fn fix_pos(pos_min: &mut Point, pos_max: &mut Point)
    ensures
        (Rect { min: *final(pos_min), max: *final(pos_max) }) == normalized(
            *old(pos_min),
            *old(pos_max),
        ),
{
    if pos_max.x < pos_min.x {
        let temp_x: i64 = pos_max.x;
        pos_max.x = pos_min.x;
        pos_min.x = temp_x;
    }
    if pos_max.y < pos_min.y {
        let temp_y: i64 = pos_max.y;
        pos_max.y = pos_min.y;
        pos_min.y = temp_y;
    }
}

fn pixels_of(d: i128) -> (px: u32)
    ensures
        px == whole_pixels(d as int),
{
    let units: i128 = UNITS_PER_PIXEL as i128;
    if d <= 0 {
        0
    } else if d / units > 0xffff_ffff {
        u32::MAX
    } else {
        (d / units) as u32
    }
}

/// Maps a window rectangle to the image region under it.
///
/// The corner is the rectangle's `min` corner less the offset; the extent
/// is the rectangle's own. Each is cut down to whole pixels, and a negative
/// one becomes 0: a rectangle that starts left of or above the image gives
/// a region that starts at 0, and one whose corners are out of order gives
/// an empty region.
pub fn to_image_space(rect: Rect, offset: ViewportOffset) -> (region: CropRegion)
    ensures
        region == image_region(rect, offset),
{
    CropRegion {
        x: pixels_of(rect.min.x as i128 - offset.x as i128),
        y: pixels_of(rect.min.y as i128 - offset.y as i128),
        width: pixels_of(rect.max.x as i128 - rect.min.x as i128),
        height: pixels_of(rect.max.y as i128 - rect.min.y as i128),
    }
}

/// Normalizing is idempotent: the corners of a normalized rectangle span
/// that same rectangle.
pub proof fn lemma_normalize_idempotent(a: Point, b: Point)
    ensures
        normalized(a, b).is_normalized(),
        normalized(normalized(a, b).min, normalized(a, b).max) == normalized(a, b),
{
}

/// Normalizing does not depend on the order in which the two corners are
/// given.
pub proof fn lemma_normalize_symmetric(a: Point, b: Point)
    ensures
        normalized(a, b) == normalized(b, a),
{
}

/// A rectangle that lies inside the image, with its corners on the image's
/// pixel grid, is recovered from its image region by adding the offset
/// back, and that region lies inside the image.
pub proof fn lemma_round_trip(rect: Rect, offset: ViewportOffset, image: Size)
    requires
        rect.is_normalized(),
        offset.x <= rect.min.x,
        offset.y <= rect.min.y,
        rect.max.x <= offset.x + UNITS_PER_PIXEL * image.width,
        rect.max.y <= offset.y + UNITS_PER_PIXEL * image.height,
        (rect.min.x - offset.x) % (UNITS_PER_PIXEL as int) == 0,
        (rect.min.y - offset.y) % (UNITS_PER_PIXEL as int) == 0,
        (rect.max.x - offset.x) % (UNITS_PER_PIXEL as int) == 0,
        (rect.max.y - offset.y) % (UNITS_PER_PIXEL as int) == 0,
    ensures
        window_rect(image_region(rect, offset), offset) == rect,
        image_region(rect, offset).clipped(image) == image_region(rect, offset),
{
}

/// Mapping the window rectangle over a region back to image space gives
/// the region, wherever that rectangle's coordinates fit in an `i64`.
pub proof fn lemma_round_trip_from_region(region: CropRegion, offset: ViewportOffset)
    requires
        offset.x + UNITS_PER_PIXEL * (region.x + region.width) <= i64::MAX,
        offset.y + UNITS_PER_PIXEL * (region.y + region.height) <= i64::MAX,
    ensures
        image_region(window_rect(region, offset), offset) == region,
{
}

/// The rectangle that a centred image covers is the window rectangle over
/// the whole image, and it maps back to the whole image.
pub proof fn lemma_centered_image_is_whole(window: Size, image: Size)
    ensures
        centered_image_rect(window, image) == window_rect(
            CropRegion::whole(image),
            centered_offset(window, image),
        ),
        image_region(centered_image_rect(window, image), centered_offset(window, image))
            == CropRegion::whole(image),
{
}

/// In a window at least as large as the image, the rectangle of the image's
/// size at the origin maps to the whole image too: its corner lies before
/// the image and is moved to the image's corner, and its extent is the
/// image's.
pub proof fn lemma_origin_image_is_whole(window: Size, image: Size)
    requires
        window.width >= image.width,
        window.height >= image.height,
    ensures
        image_region(origin_image_rect(image), centered_offset(window, image))
            == CropRegion::whole(image),
{
}

/// A rectangle whose `min` corner lies left of or above the image maps to a
/// region that starts at 0 on that axis, and keeps its own extent.
pub proof fn lemma_clamped_at_zero(rect: Rect, offset: ViewportOffset)
    ensures
        rect.min.x < offset.x ==> image_region(rect, offset).x == 0,
        rect.min.y < offset.y ==> image_region(rect, offset).y == 0,
        image_region(rect, offset).width == whole_pixels(rect.max.x - rect.min.x),
        image_region(rect, offset).height == whole_pixels(rect.max.y - rect.min.y),
{
}

} // verus!
