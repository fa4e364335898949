//! What is drawn over the image: markers on the two corners, the outline of
//! the selection, and the outline of the last committed rectangle.
//!
//! Lengths are in half pixels, as all of window space.

use crate::geometry::{normalized, Point, Rect, ViewportOffset};
use crate::selection::SelectionState;
use vstd::prelude::*;

verus! {

/// The extent from which a selection counts as large: 25 pixels.
pub const LARGE_EXTENT: i64 = 50;

/// The width of the outline of a large rectangle: 2 pixels.
pub const HEAVY_STROKE: i64 = 4;

/// The width of the outline of any other rectangle: 1 pixel.
pub const LIGHT_STROKE: i64 = 2;

/// The radius of a marker on a large selection: 3 pixels.
pub const LARGE_RADIUS: i64 = 6;

/// The radius of a marker on any other selection: 1.5 pixels.
pub const SMALL_RADIUS: i64 = 3;

/// The radius of a marker while only one corner is set: 2 pixels.
pub const LONE_RADIUS: i64 = 4;

/// What every marker is drawn larger than its radius: 2 pixels.
pub const MARKER_HALO: i64 = 4;

/// The four colours of the overlay, by what they mark.
#[derive(Clone, Copy, Debug, PartialEq, Eq, Structural)]
pub enum Paint {
    /// The marker on the anchor corner.
    Anchor,
    /// The marker on the drag corner.
    Drag,
    /// The outline of the selection as it is dragged.
    Preview,
    /// The outline of the rectangle that was last committed.
    Committed,
}

/// One thing to draw.
#[derive(Clone, Copy, Debug, PartialEq, Eq)]
pub enum Shape {
    /// The captured image, with its top left corner at `at`.
    Image { at: Point },
    /// A filled disc.
    Marker { center: Point, radius: i64, paint: Paint },
    /// The outline of a rectangle.
    Outline { rect: Rect, width: i64, paint: Paint },
}

/// Whether the rectangle from `pos_min` to `pos_max` is at least 25 pixels
/// wide and at least 25 pixels high.
pub open spec fn is_large(pos_min: Point, pos_max: Point) -> bool {
    pos_max.x - pos_min.x >= LARGE_EXTENT && pos_max.y - pos_min.y >= LARGE_EXTENT
}

/// The width of the outline of the rectangle from `pos_min` to `pos_max`.
pub open spec fn stroke_width(pos_min: Point, pos_max: Point) -> int {
    if is_large(pos_min, pos_max) {
        HEAVY_STROKE as int
    } else {
        LIGHT_STROKE as int
    }
}

/// The radius of the corner markers, before the halo: it goes by the size
/// of the selection once both corners are set.
pub open spec fn circle_radius(state: SelectionState) -> int {
    match (state.anchor_corner, state.drag_corner) {
        (Some(a), Some(b)) => if is_large(normalized(a, b).min, normalized(a, b).max) {
            LARGE_RADIUS as int
        } else {
            SMALL_RADIUS as int
        },
        _ => LONE_RADIUS as int,
    }
}

/// The marker on a corner, if the corner is set.
pub open spec fn marker(corner: Option<Point>, radius: int, paint: Paint) -> Seq<Shape> {
    match corner {
        Some(center) => seq![Shape::Marker { center, radius: radius as i64, paint }],
        None => seq![],
    }
}

/// The outline of the selection, once both corners are set.
pub open spec fn preview(state: SelectionState) -> Seq<Shape> {
    match (state.anchor_corner, state.drag_corner) {
        (Some(a), Some(b)) => seq![
            Shape::Outline {
                rect: normalized(a, b),
                width: stroke_width(normalized(a, b).min, normalized(a, b).max) as i64,
                paint: Paint::Preview,
            },
        ],
        _ => seq![],
    }
}

/// The outline of the committed rectangle, if there is one. Its width goes
/// by the rectangle's size with the corners in order.
pub open spec fn committed(state: SelectionState) -> Seq<Shape> {
    match state.committed_rect {
        Some(rect) => seq![
            Shape::Outline {
                rect,
                width: stroke_width(
                    normalized(rect.min, rect.max).min,
                    normalized(rect.min, rect.max).max,
                ) as i64,
                paint: Paint::Committed,
            },
        ],
        None => seq![],
    }
}

/// Everything to draw for a frame, in drawing order: the image at the
/// viewport offset, the marker on the anchor corner, the marker on the drag
/// corner, the outline of the selection, the outline of the committed
/// rectangle. Later shapes lie over earlier ones.
pub open spec fn scene_of(state: SelectionState, offset: ViewportOffset) -> Seq<Shape> {
    seq![Shape::Image { at: Point { x: offset.x, y: offset.y } }] + marker(
        state.anchor_corner,
        circle_radius(state) + MARKER_HALO,
        Paint::Anchor,
    ) + marker(state.drag_corner, circle_radius(state) + MARKER_HALO, Paint::Drag) + preview(state)
        + committed(state)
}

fn large(pos_min: Point, pos_max: Point) -> (yes: bool)
    ensures
        yes == is_large(pos_min, pos_max),
{
    let size_x: i128 = pos_max.x as i128 - pos_min.x as i128;
    let size_y: i128 = pos_max.y as i128 - pos_min.y as i128;
    size_x >= LARGE_EXTENT as i128 && size_y >= LARGE_EXTENT as i128
}

/// The width of the outline of the rectangle from `pos_min` to `pos_max`:
/// heavy if the rectangle is at least 25 pixels wide and high, light
/// otherwise.
pub fn get_stroke_width(pos_min: Point, pos_max: Point) -> (width: i64)
    ensures
        width == stroke_width(pos_min, pos_max),
{
    if large(pos_min, pos_max) {
        HEAVY_STROKE
    } else {
        LIGHT_STROKE
    }
}

/// The radius of the corner markers, before the halo: large if the
/// selection is at least 25 pixels wide and high, small if it is less, and
/// in between while a corner is missing.
pub fn get_circle_radius(state: &SelectionState) -> (radius: i64)
    ensures
        radius == circle_radius(*state),
{
    match (state.anchor_corner, state.drag_corner) {
        (Some(a), Some(b)) => {
            let rect = Rect::from_corners(a, b);
            if large(rect.min, rect.max) {
                LARGE_RADIUS
            } else {
                SMALL_RADIUS
            }
        },
        _ => LONE_RADIUS,
    }
}

/// Everything to draw for a frame, in drawing order.
pub fn scene(state: &SelectionState, offset: ViewportOffset) -> (shapes: Vec<Shape>)
    ensures
        shapes@ == scene_of(*state, offset),
{
    let radius: i64 = get_circle_radius(state) + MARKER_HALO;
    let mut shapes: Vec<Shape> = Vec::new();
    shapes.push(Shape::Image { at: Point { x: offset.x, y: offset.y } });
    if let Some(center) = state.anchor_corner {
        shapes.push(Shape::Marker { center, radius, paint: Paint::Anchor });
    }
    if let Some(center) = state.drag_corner {
        shapes.push(Shape::Marker { center, radius, paint: Paint::Drag });
    }
    if let (Some(a), Some(b)) = (state.anchor_corner, state.drag_corner) {
        let rect = Rect::from_corners(a, b);
        let width: i64 = get_stroke_width(rect.min, rect.max);
        shapes.push(Shape::Outline { rect, width, paint: Paint::Preview });
    }
    if let Some(rect) = state.committed_rect {
        let ordered = Rect::from_corners(rect.min, rect.max);
        let width: i64 = get_stroke_width(ordered.min, ordered.max);
        shapes.push(Shape::Outline { rect, width, paint: Paint::Committed });
    }
    shapes
}

} // verus!
