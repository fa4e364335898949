//! The controller: the captured image, the selection on it, and the export
//! of a committed selection.

use crate::bitmap::{lemma_crop_whole, lemma_degenerate_crop, Bitmap, Raster};
use crate::geometry::{
    centered_offset, image_region, lemma_centered_image_is_whole, lemma_origin_image_is_whole,
    to_image_space, Rect, Size, ViewportOffset,
};
use crate::overlay::{scene, scene_of, Shape};
use crate::paths::{crop_path_now, crop_path_of};
use crate::selection::{
    action_for, effective_rect, next_state, Action, Commit, FrameInput, SelectionState,
};
use vstd::prelude::*;

verus! {

/// The captured image with the selection that the user makes on it.
#[derive(Debug)]
pub struct SelectionController {
    /// The captured image.
    pub image: Bitmap,
    /// The file that holds the captured image.
    pub path: String,
    /// The selection as dragged so far.
    pub selection: SelectionState,
    /// The shift of the image within the window, as of the last frame.
    pub offset: ViewportOffset,
}

/// A crop that is ready to be saved and put on the clipboard.
#[derive(Debug, PartialEq, Eq)]
pub struct Export {
    /// The pixels that were cut out.
    pub image: Bitmap,
    /// The file to save them to.
    pub path: String,
}

/// What a frame leaves for the caller to do.
#[derive(Debug, PartialEq, Eq)]
pub enum Outcome {
    /// Nothing: draw the frame and go on.
    Continue,
    /// The user gave up: remove the capture and end the session.
    Cancelled,
    /// A crop was taken: save it, put it on the clipboard, and end the
    /// session if `exit` is set.
    Exported { crop: Export, exit: bool },
}

/// Whether `crop` is the export of the window rectangle `rect` from the
/// image `source` saved at `capture_path`, seen under the viewport offset
/// `offset`: its pixels are those of the image region under the rectangle,
/// and its path is the crop path of the capture for some time.
pub open spec fn is_export_of(
    crop: Export,
    source: Raster,
    capture_path: Seq<char>,
    rect: Rect,
    offset: ViewportOffset,
) -> bool {
    &&& crop.image@.is_crop_of(source, image_region(rect, offset))
    &&& exists|timestamp: Seq<char>| crop.path@ == #[trigger] crop_path_of(capture_path, timestamp)
}

impl SelectionController {
    /// A controller for the image `image` that was loaded from `path`,
    /// with nothing selected yet.
    pub fn new(image: Bitmap, path: String) -> (controller: SelectionController)
        ensures
            controller.image == image,
            controller.path == path,
            controller.selection == SelectionState::idle(),
            controller.offset == (ViewportOffset { x: 0, y: 0 }),
    {
        SelectionController {
            image,
            path,
            selection: SelectionState::new(),
            offset: ViewportOffset::zero(),
        }
    }

    /// Cuts the part of the image under the window rectangle `rect` and
    /// names the file for it. The rectangle may be empty, and it may reach
    /// beyond the image: what lies outside is left out.
    pub fn copy_rect(&self, rect: Rect) -> (crop: Export)
        ensures
            is_export_of(crop, self.image@, self.path@, rect, self.offset),
    {
        let region = to_image_space(rect, self.offset);
        let image = self.image.crop(region);
        let path = crop_path_now(self.path.as_str());
        Export { image, path }
    }

    /// Takes one frame's input.
    ///
    /// The viewport offset is set to centre the image in the window as it
    /// is now. Then the selection makes its transition, and where that asks
    /// for an export, the crop is taken under the new offset.
    pub fn update(&mut self, input: &FrameInput) -> (outcome: Outcome)
        ensures
            final(self).image == old(self).image,
            final(self).path == old(self).path,
            final(self).offset == centered_offset(input.window, old(self).image@.size),
            final(self).selection == next_state(
                old(self).selection,
                *input,
                old(self).image@.size,
            ),
            match action_for(old(self).selection, *input, old(self).image@.size) {
                Action::Continue => outcome is Continue,
                Action::Cancel => outcome is Cancelled,
                Action::Export { rect, exit } => outcome matches Outcome::Exported {
                    crop,
                    exit: leave,
                } && leave == exit && is_export_of(
                    crop,
                    old(self).image@,
                    old(self).path@,
                    rect,
                    final(self).offset,
                ),
            },
    {
        let size = self.image.size();
        self.offset = ViewportOffset::centered(input.window, size);
        match self.selection.step(input, size) {
            Action::Continue => Outcome::Continue,
            Action::Cancel => Outcome::Cancelled,
            Action::Export { rect, exit } => Outcome::Exported { crop: self.copy_rect(rect), exit },
        }
    }

    /// Everything to draw for the frame, in drawing order.
    pub fn scene(&self) -> (shapes: Vec<Shape>)
        ensures
            shapes@ == scene_of(self.selection, self.offset),
    {
        scene(&self.selection, self.offset)
    }
}

/// A rectangle without width or without height can be exported like any
/// other, and its export is an image without pixels.
pub proof fn lemma_degenerate_export(
    crop: Export,
    source: Raster,
    capture_path: Seq<char>,
    rect: Rect,
    offset: ViewportOffset,
)
    requires
        is_export_of(crop, source, capture_path, rect, offset),
        rect.min.x == rect.max.x || rect.min.y == rect.max.y,
    ensures
        crop.image@.size.width == 0 || crop.image@.size.height == 0,
        crop.image@.pixels.len() == 0,
{
    lemma_degenerate_crop(crop.image@, source, image_region(rect, offset));
}

/// Without a selection a commit exports the whole image: the commit that
/// goes on in any window, the commit that ends the session in a window no
/// smaller than the image.
pub proof fn lemma_fallback_exports_whole_image(
    crop: Export,
    source: Raster,
    capture_path: Seq<char>,
    state: SelectionState,
    commit: Commit,
    window: Size,
)
    requires
        source.wf(),
        !state.has_selection(),
        commit == Commit::Exit ==> window.width >= source.size.width && window.height
            >= source.size.height,
        is_export_of(
            crop,
            source,
            capture_path,
            effective_rect(state, commit, window, source.size),
            centered_offset(window, source.size),
        ),
    ensures
        crop.image@ == source,
{
    let offset = centered_offset(window, source.size);
    let rect = effective_rect(state, commit, window, source.size);
    match commit {
        Commit::Keep => lemma_centered_image_is_whole(window, source.size),
        Commit::Exit => lemma_origin_image_is_whole(window, source.size),
    }
    lemma_crop_whole(crop.image@, source, image_region(rect, offset));
}

} // verus!
