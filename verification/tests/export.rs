use screenshot_util::bitmap::Bitmap;
use screenshot_util::controller::{Outcome, SelectionController};
use screenshot_util::geometry::{CropRegion, Point, Rect, Size, ViewportOffset};
use screenshot_util::overlay::{Paint, Shape};
use screenshot_util::selection::{FrameInput, SelectionState};

const CAPTURE: &str = "/tmp/shots/2024-05-01_14:22:07.png";
const WINDOW: Size = Size { width: 1000, height: 800 };

fn px(x: i32, y: i32) -> Point {
    Point::from_pixels(x, y)
}

/// The four bytes of the test image at `(x, y)`: they tell every position
/// of an image up to 4096 pixels wide and high from every other.
fn pixel(x: u32, y: u32) -> [u8; 4] {
    [(x % 256) as u8, (y % 256) as u8, ((x / 256) * 16 + y / 256) as u8, 255]
}

fn test_image(width: u32, height: u32) -> Bitmap {
    let mut bytes = Vec::with_capacity((4 * width * height) as usize);
    for y in 0..height {
        for x in 0..width {
            bytes.extend_from_slice(&pixel(x, y));
        }
    }
    Bitmap::new(width, height, bytes).expect("as many bytes as the size asks for")
}

/// Checks that `part` is `width` by `height` and shows `source` from
/// `(x, y)` on.
fn assert_shows(part: &Bitmap, x: u32, y: u32, width: u32, height: u32) {
    assert_eq!(part.size(), Size { width, height });
    let bytes = part.pixels();
    assert_eq!(bytes.len(), (4 * width * height) as usize);
    for row in 0..height {
        for column in 0..width {
            let at = 4 * (row * width + column) as usize;
            assert_eq!(bytes[at..at + 4], pixel(x + column, y + row), "at ({}, {})", column, row);
        }
    }
}

fn controller() -> SelectionController {
    SelectionController::new(test_image(800, 600), CAPTURE.to_string())
}

fn quiet(pointer: Option<Point>) -> FrameInput {
    FrameInput {
        window: WINDOW,
        pointer,
        cancel: false,
        primary_down: false,
        primary_released: false,
        secondary_down: false,
        confirm: false,
        confirm_and_exit: false,
    }
}

fn drag(controller: &mut SelectionController, from: Point, to: Point) {
    let held = |at| FrameInput { primary_down: true, ..quiet(Some(at)) };
    assert!(matches!(controller.update(&held(from)), Outcome::Continue));
    assert!(matches!(controller.update(&held(to)), Outcome::Continue));
    let released = FrameInput { primary_released: true, ..quiet(Some(to)) };
    assert!(matches!(controller.update(&released), Outcome::Continue));
}

fn enter() -> FrameInput {
    FrameInput { confirm: true, ..quiet(None) }
}

fn space() -> FrameInput {
    FrameInput { confirm_and_exit: true, ..quiet(None) }
}

fn assert_crop_path(path: &str) {
    let stamp = path
        .strip_prefix("/tmp/shots/2024-05-01_14:22:07-cropped_at-")
        .and_then(|rest| rest.strip_suffix(".png"))
        .expect("the capture's name, then the time of the crop");
    assert_eq!(stamp.chars().count(), 19, "{}", stamp);
}

#[test]
fn bitmap_needs_exactly_its_bytes() {
    assert!(Bitmap::new(2, 3, vec![0; 24]).is_some());
    assert!(Bitmap::new(2, 3, vec![0; 23]).is_none());
    assert!(Bitmap::new(2, 3, vec![0; 25]).is_none());
    assert!(Bitmap::new(0, 0, vec![]).is_some());
    assert!(Bitmap::new(0, 7, vec![]).is_some());
    assert!(Bitmap::new(0, 7, vec![0; 4]).is_none());
    assert!(Bitmap::new(1, 1, vec![]).is_none());
    assert!(Bitmap::new(u32::MAX, u32::MAX, vec![0; 16]).is_none());
    // 4 * 2^31 * 2^31 is 0 in 64 bits, and is still not the length of nothing
    assert!(Bitmap::new(1 << 31, 1 << 31, vec![]).is_none());
}

#[test]
fn bitmap_gives_back_what_it_was_made_of() {
    let bytes: Vec<u8> = (0..24).collect();
    let bitmap = Bitmap::new(3, 2, bytes.clone()).unwrap();
    assert_eq!(bitmap.size(), Size { width: 3, height: 2 });
    assert_eq!(bitmap.pixels(), &bytes);
    let copy = bitmap.clone();
    assert_eq!(copy, bitmap);
    assert_eq!(copy.pixels(), &bytes);
}

#[test]
fn crop_takes_the_pixels_under_the_region() {
    let image = test_image(40, 30);
    let part = image.crop(CropRegion { x: 5, y: 7, width: 20, height: 10 });
    assert_shows(&part, 5, 7, 20, 10);
    let single = image.crop(CropRegion { x: 39, y: 29, width: 1, height: 1 });
    assert_eq!(single.pixels(), &pixel(39, 29).to_vec());
    // the source is left as it was
    assert_shows(&image, 0, 0, 40, 30);
}

#[test]
fn crop_of_everything_is_the_image() {
    let image = test_image(40, 30);
    assert_eq!(image.crop(CropRegion { x: 0, y: 0, width: 40, height: 30 }), image);
    assert_eq!(image.crop(CropRegion { x: 0, y: 0, width: u32::MAX, height: u32::MAX }), image);
}

#[test]
fn crop_is_clipped_to_the_image() {
    let image = test_image(40, 30);
    let corner = image.crop(CropRegion { x: 30, y: 25, width: 100, height: 100 });
    assert_shows(&corner, 30, 25, 10, 5);
    let beyond = image.crop(CropRegion { x: 41, y: 0, width: 5, height: 5 });
    assert_eq!(beyond.size(), Size { width: 0, height: 5 });
    assert!(beyond.pixels().is_empty());
    let far = image.crop(CropRegion { x: u32::MAX, y: u32::MAX, width: u32::MAX, height: u32::MAX });
    assert_eq!(far.size(), Size { width: 0, height: 0 });
    assert!(far.pixels().is_empty());
    let edge = image.crop(CropRegion { x: 40, y: 30, width: 1, height: 1 });
    assert_eq!(edge.size(), Size { width: 0, height: 0 });
}

#[test]
fn crop_of_an_empty_region_has_no_pixels() {
    let image = test_image(40, 30);
    let thin = image.crop(CropRegion { x: 5, y: 7, width: 0, height: 10 });
    assert_eq!(thin.size(), Size { width: 0, height: 10 });
    assert!(thin.pixels().is_empty());
    let flat = image.crop(CropRegion { x: 5, y: 7, width: 10, height: 0 });
    assert_eq!(flat.size(), Size { width: 10, height: 0 });
    assert!(flat.pixels().is_empty());
    let empty = Bitmap::new(0, 0, vec![]).unwrap();
    let nothing = empty.crop(CropRegion { x: 0, y: 0, width: 5, height: 5 });
    assert_eq!(nothing.size(), Size { width: 0, height: 0 });
}

#[test]
fn a_new_controller_has_nothing_selected() {
    let controller = controller();
    assert_eq!(controller.selection, SelectionState::new());
    assert_eq!(controller.offset, ViewportOffset { x: 0, y: 0 });
    assert_eq!(controller.path, CAPTURE);
    assert_eq!(controller.image, test_image(800, 600));
    assert_eq!(controller.scene(), vec![Shape::Image { at: px(0, 0) }]);
}

#[test]
fn every_frame_recentres_the_image() {
    let mut controller = controller();
    controller.update(&quiet(None));
    assert_eq!(controller.offset, ViewportOffset { x: 200, y: 200 });
    let wider = FrameInput { window: Size { width: 1201, height: 600 }, ..quiet(None) };
    controller.update(&wider);
    assert_eq!(controller.offset, ViewportOffset { x: 401, y: 0 });
    let cancel = FrameInput { cancel: true, window: Size { width: 800, height: 500 }, ..quiet(None) };
    controller.update(&cancel);
    assert_eq!(controller.offset, ViewportOffset { x: 0, y: -100 });
}

#[test]
fn scenario_drag_then_enter_exports_the_dragged_region() {
    let mut controller = controller();
    drag(&mut controller, px(150, 150), px(650, 550));
    match controller.update(&enter()) {
        Outcome::Exported { crop, exit } => {
            assert!(!exit);
            assert_shows(&crop.image, 50, 50, 500, 400);
            assert_crop_path(&crop.path);
        }
        _ => panic!("enter exports"),
    }
    let rect = Rect { min: px(150, 150), max: px(650, 550) };
    assert_eq!(controller.selection.committed_rect, Some(rect));
    assert_eq!(controller.selection.anchor_corner, Some(px(150, 150)));
    assert_eq!(controller.selection.drag_corner, Some(px(650, 550)));
    assert_eq!(controller.image, test_image(800, 600));
    assert_eq!(controller.path, CAPTURE);
    assert_eq!(
        controller.scene(),
        vec![
            Shape::Image { at: px(100, 100) },
            Shape::Marker { center: px(150, 150), radius: 10, paint: Paint::Anchor },
            Shape::Marker { center: px(650, 550), radius: 10, paint: Paint::Drag },
            Shape::Outline { rect, width: 4, paint: Paint::Preview },
            Shape::Outline { rect, width: 4, paint: Paint::Committed },
        ]
    );
}

#[test]
fn scenario_space_without_a_drag_exports_the_whole_image() {
    let mut controller = controller();
    match controller.update(&space()) {
        Outcome::Exported { crop, exit } => {
            assert!(exit);
            assert_shows(&crop.image, 0, 0, 800, 600);
            assert_eq!(crop.image, test_image(800, 600));
            assert_crop_path(&crop.path);
        }
        _ => panic!("space exports"),
    }
    assert_eq!(controller.selection, SelectionState::new());
}

#[test]
fn scenario_escape_before_any_drag_cancels_without_a_crop() {
    let mut controller = controller();
    let escape = FrameInput { cancel: true, ..quiet(None) };
    assert!(matches!(controller.update(&escape), Outcome::Cancelled));
    assert_eq!(controller.selection, SelectionState::new());
    assert_eq!(controller.path, CAPTURE);
    let escape_and_space = FrameInput { cancel: true, confirm_and_exit: true, ..quiet(None) };
    assert!(matches!(controller.update(&escape_and_space), Outcome::Cancelled));
}

#[test]
fn scenario_reversed_drag_exports_the_same_crop() {
    let mut forward = controller();
    drag(&mut forward, px(150, 150), px(650, 550));
    let mut backward = controller();
    drag(&mut backward, px(650, 550), px(150, 150));
    let first = match forward.update(&enter()) {
        Outcome::Exported { crop, .. } => crop.image,
        _ => panic!("enter exports"),
    };
    let second = match backward.update(&enter()) {
        Outcome::Exported { crop, .. } => crop.image,
        _ => panic!("enter exports"),
    };
    assert_eq!(first, second);
    assert_shows(&second, 50, 50, 500, 400);
    assert_eq!(forward.selection.committed_rect, backward.selection.committed_rect);
}

#[test]
fn enter_without_a_drag_exports_the_whole_image_and_marks_it() {
    let mut controller = controller();
    match controller.update(&enter()) {
        Outcome::Exported { crop, exit } => {
            assert!(!exit);
            assert_eq!(crop.image, test_image(800, 600));
        }
        _ => panic!("enter exports"),
    }
    let rect = Rect { min: px(100, 100), max: px(900, 700) };
    assert_eq!(controller.selection.committed_rect, Some(rect));
    assert_eq!(
        controller.scene(),
        vec![
            Shape::Image { at: px(100, 100) },
            Shape::Outline { rect, width: 4, paint: Paint::Committed },
        ]
    );
}

#[test]
fn the_fallbacks_part_ways_when_the_window_is_smaller_than_the_image() {
    // the image hangs 50 pixels over the window's left edge and 25 over its top
    let window = Size { width: 700, height: 550 };
    let mut keep = controller();
    let kept = match keep.update(&FrameInput { window, ..enter() }) {
        Outcome::Exported { crop, .. } => crop.image,
        _ => panic!("enter exports"),
    };
    assert_eq!(keep.selection.committed_rect, Some(Rect { min: px(-50, -25), max: px(750, 575) }));
    assert_shows(&kept, 0, 0, 800, 600);
    let mut exit = controller();
    let left = match exit.update(&FrameInput { window, ..space() }) {
        Outcome::Exported { crop, .. } => crop.image,
        _ => panic!("space exports"),
    };
    assert_shows(&left, 50, 25, 750, 575);
}

#[test]
fn a_degenerate_selection_exports_an_image_without_pixels() {
    let mut line = controller();
    drag(&mut line, px(150, 150), px(150, 550));
    match line.update(&enter()) {
        Outcome::Exported { crop, .. } => {
            assert_eq!(crop.image.size(), Size { width: 0, height: 400 });
            assert!(crop.image.pixels().is_empty());
            assert_crop_path(&crop.path);
        }
        _ => panic!("enter exports"),
    }
    let mut dot = controller();
    drag(&mut dot, px(150, 150), px(150, 150));
    match dot.update(&space()) {
        Outcome::Exported { crop, exit } => {
            assert!(exit);
            assert_eq!(crop.image.size(), Size { width: 0, height: 0 });
            assert!(crop.image.pixels().is_empty());
        }
        _ => panic!("space exports"),
    }
}

#[test]
fn a_selection_that_starts_before_the_image_is_clamped() {
    let mut controller = controller();
    // 60 pixels left of the image and 20 above it
    drag(&mut controller, px(40, 80), px(300, 200));
    match controller.update(&enter()) {
        // the corner moves to the image's corner; the extent stays the
        // rectangle's own
        Outcome::Exported { crop, .. } => assert_shows(&crop.image, 0, 0, 260, 120),
        _ => panic!("enter exports"),
    }
}

#[test]
fn a_selection_that_runs_past_the_image_is_clipped() {
    let mut controller = controller();
    drag(&mut controller, px(800, 600), px(1000, 800));
    match controller.update(&enter()) {
        Outcome::Exported { crop, .. } => assert_shows(&crop.image, 700, 500, 100, 100),
        _ => panic!("enter exports"),
    }
    let mut outside = SelectionController::new(test_image(800, 600), CAPTURE.to_string());
    drag(&mut outside, px(950, 750), px(990, 790));
    match outside.update(&enter()) {
        Outcome::Exported { crop, .. } => {
            assert_eq!(crop.image.size(), Size { width: 0, height: 0 });
        }
        _ => panic!("enter exports"),
    }
}

#[test]
fn copy_rect_goes_by_the_offset_of_the_last_frame() {
    let mut controller = controller();
    let rect = Rect { min: px(150, 150), max: px(650, 550) };
    // before any frame the image sits in the window's corner
    assert_shows(&controller.copy_rect(rect).image, 150, 150, 500, 400);
    controller.update(&quiet(None));
    let crop = controller.copy_rect(rect);
    assert_shows(&crop.image, 50, 50, 500, 400);
    assert_crop_path(&crop.path);
    // the selection is not touched
    assert_eq!(controller.selection, SelectionState::new());
}

#[test]
fn a_capture_without_an_extension_still_gets_a_crop_name() {
    let controller = SelectionController::new(test_image(4, 4), "capture".to_string());
    let crop = controller.copy_rect(Rect { min: px(0, 0), max: px(4, 4) });
    assert!(crop.path.starts_with("-cropped_at-"), "{}", crop.path);
    assert!(crop.path.ends_with(".png"));
}
