//! The selection state machine: what one frame's input does to the
//! selection, and what it asks the caller to do.

use crate::geometry::{
    centered_image_rect, centered_offset, normalized, origin_image_rect, Point, Rect, Size,
};
use vstd::prelude::*;

verus! {

/// The selection as the user has dragged it so far.
///
/// The drag corner only makes a rectangle together with the anchor corner:
/// while either is missing there is no selection, and a commit falls back
/// to the whole image.
#[derive(Clone, Copy, Debug, PartialEq, Eq)]
pub struct SelectionState {
    /// The corner fixed by the press that began the drag.
    pub anchor_corner: Option<Point>,
    /// The opposite corner, which follows the pointer.
    pub drag_corner: Option<Point>,
    /// Whether a drag with the primary button is under way.
    pub pressed: bool,
    /// The rectangle that was last committed and kept on screen.
    pub committed_rect: Option<Rect>,
}

/// What the input devices report for one frame.
#[derive(Clone, Copy, Debug, PartialEq, Eq)]
pub struct FrameInput {
    /// The size of the window, in whole pixels.
    pub window: Size,
    /// Where the pointer is, in half pixels, if it has a position.
    pub pointer: Option<Point>,
    /// The cancel key was pressed.
    pub cancel: bool,
    /// The primary button is held down.
    pub primary_down: bool,
    /// The primary button was let go.
    pub primary_released: bool,
    /// The secondary button is held down.
    pub secondary_down: bool,
    /// The key that commits and goes on was pressed.
    pub confirm: bool,
    /// The key that commits and ends the session was pressed.
    pub confirm_and_exit: bool,
}

/// The two ways to commit a selection.
#[derive(Clone, Copy, Debug, PartialEq, Eq, Structural)]
pub enum Commit {
    /// Export the selection and go on.
    Keep,
    /// Export the selection and end the session.
    Exit,
}

/// What a frame asks the caller to do.
#[derive(Clone, Copy, Debug, PartialEq, Eq)]
pub enum Action {
    /// Nothing: draw the frame and go on.
    Continue,
    /// Give up: remove the capture and end the session without a crop.
    Cancel,
    /// Export the part of the image under `rect`, then end the session if
    /// `exit` is set.
    Export { rect: Rect, exit: bool },
}

/// The rectangle that a commit exports.
///
/// With both corners set it is the rectangle they span. Without a
/// selection a rectangle of the image's size stands in: for a commit that
/// goes on, the window rectangle that the centred image covers; for one
/// that ends the session, the rectangle at the window's origin, which
/// exports the whole image as long as the window is no smaller than the
/// image.
pub open spec fn effective_rect(
    state: SelectionState,
    commit: Commit,
    window: Size,
    image: Size,
) -> Rect {
    match (state.anchor_corner, state.drag_corner) {
        (Some(a), Some(b)) => normalized(a, b),
        _ => match commit {
            Commit::Keep => centered_image_rect(window, image),
            Commit::Exit => origin_image_rect(image),
        },
    }
}

/// The selection after a frame. The first of these that applies decides,
/// and the others are not looked at:
///
/// - the cancel key: nothing changes;
/// - the primary button is down: the pointer's position becomes the anchor
///   corner if no drag was under way, which begins one, and the drag corner
///   otherwise;
/// - the primary button was let go during a drag: the pointer's position
///   becomes the drag corner and the drag ends;
/// - the secondary button is down: the pointer's position becomes the drag
///   corner, whether or not there is an anchor, and no drag begins or ends;
/// - the key that commits and goes on: the effective rectangle is
///   remembered as committed;
/// - anything else: nothing changes.
///
/// A button changes nothing while the pointer has no position.
pub open spec fn next_state(state: SelectionState, input: FrameInput, image: Size) -> SelectionState {
    if input.cancel {
        state
    } else if input.primary_down {
        match input.pointer {
            Some(p) => if !state.pressed {
                SelectionState {
                    anchor_corner: Some(p),
                    drag_corner: state.drag_corner,
                    pressed: true,
                    committed_rect: state.committed_rect,
                }
            } else {
                SelectionState {
                    anchor_corner: state.anchor_corner,
                    drag_corner: Some(p),
                    pressed: true,
                    committed_rect: state.committed_rect,
                }
            },
            None => state,
        }
    } else if input.primary_released && state.pressed {
        match input.pointer {
            Some(p) => SelectionState {
                anchor_corner: state.anchor_corner,
                drag_corner: Some(p),
                pressed: false,
                committed_rect: state.committed_rect,
            },
            None => state,
        }
    } else if input.secondary_down {
        match input.pointer {
            Some(p) => SelectionState {
                anchor_corner: state.anchor_corner,
                drag_corner: Some(p),
                pressed: state.pressed,
                committed_rect: state.committed_rect,
            },
            None => state,
        }
    } else if input.confirm {
        SelectionState {
            anchor_corner: state.anchor_corner,
            drag_corner: state.drag_corner,
            pressed: state.pressed,
            committed_rect: Some(effective_rect(state, Commit::Keep, input.window, image)),
        }
    } else {
        state
    }
}

/// What a frame asks for, by the same order of precedence as
/// [`next_state`]: the cancel key asks to cancel; a button that is down, or
/// the primary button let go during a drag, asks for nothing; then either
/// commit key asks for the export of the effective rectangle.
pub open spec fn action_for(state: SelectionState, input: FrameInput, image: Size) -> Action {
    if input.cancel {
        Action::Cancel
    } else if input.primary_down || (input.primary_released && state.pressed)
        || input.secondary_down {
        Action::Continue
    } else if input.confirm {
        Action::Export {
            rect: effective_rect(state, Commit::Keep, input.window, image),
            exit: false,
        }
    } else if input.confirm_and_exit {
        Action::Export {
            rect: effective_rect(state, Commit::Exit, input.window, image),
            exit: true,
        }
    } else {
        Action::Continue
    }
}

impl SelectionState {
    /// The state before any input: no corner, no drag, nothing committed.
    pub open spec fn idle() -> SelectionState {
        SelectionState {
            anchor_corner: None,
            drag_corner: None,
            pressed: false,
            committed_rect: None,
        }
    }

    /// Whether both corners are set.
    pub open spec fn has_selection(self) -> bool {
        self.anchor_corner is Some && self.drag_corner is Some
    }

    /// The state before any input.
    pub fn new() -> (state: SelectionState)
        ensures
            state == SelectionState::idle(),
    {
        SelectionState { anchor_corner: None, drag_corner: None, pressed: false, committed_rect: None }
    }

    /// The rectangle that a commit of the given kind exports now, in a
    /// window of size `window` that shows an image of size `image`.
    pub fn effective_rect(&self, commit: Commit, window: Size, image: Size) -> (rect: Rect)
        ensures
            rect == effective_rect(*self, commit, window, image),
    {
        match (self.anchor_corner, self.drag_corner) {
            (Some(a), Some(b)) => Rect::from_corners(a, b),
            _ => match commit {
                Commit::Keep => Rect::centered_image(window, image),
                Commit::Exit => Rect::origin_image(image),
            },
        }
    }

    /// Takes one frame's input: updates the selection and says what the
    /// caller is to do. At most one transition is made per frame.
    pub fn step(&mut self, input: &FrameInput, image: Size) -> (action: Action)
        ensures
            *final(self) == next_state(*old(self), *input, image),
            action == action_for(*old(self), *input, image),
    {
        if input.cancel {
            Action::Cancel
        } else if input.primary_down {
            if let Some(p) = input.pointer {
                if !self.pressed {
                    self.anchor_corner = Some(p);
                    self.pressed = true;
                } else {
                    self.drag_corner = Some(p);
                }
            }
            Action::Continue
        } else if input.primary_released && self.pressed {
            if let Some(p) = input.pointer {
                self.drag_corner = Some(p);
                self.pressed = false;
            }
            Action::Continue
        } else if input.secondary_down {
            if let Some(p) = input.pointer {
                self.drag_corner = Some(p);
            }
            Action::Continue
        } else if input.confirm {
            let rect = self.effective_rect(Commit::Keep, input.window, image);
            self.committed_rect = Some(rect);
            Action::Export { rect, exit: false }
        } else if input.confirm_and_exit {
            let rect = self.effective_rect(Commit::Exit, input.window, image);
            Action::Export { rect, exit: true }
        } else {
            Action::Continue
        }
    }
}

/// Without a selection the two commits export different rectangles unless
/// the image sits in the window's corner: the one that goes on exports a
/// rectangle that starts at the centring offset, the one that ends the
/// session exports one that starts at the origin.
pub proof fn lemma_fallbacks_diverge(state: SelectionState, window: Size, image: Size)
    requires
        !state.has_selection(),
    ensures
        effective_rect(state, Commit::Keep, window, image).min == (Point {
            x: centered_offset(window, image).x,
            y: centered_offset(window, image).y,
        }),
        effective_rect(state, Commit::Exit, window, image).min == (Point { x: 0, y: 0 }),
        window != image ==> effective_rect(state, Commit::Keep, window, image) != effective_rect(
            state,
            Commit::Exit,
            window,
            image,
        ),
{
}

/// The frame in which the primary button is down with the pointer at `at`.
pub open spec fn held_at(at: Point, window: Size) -> FrameInput {
    FrameInput {
        window,
        pointer: Some(at),
        cancel: false,
        primary_down: true,
        primary_released: false,
        secondary_down: false,
        confirm: false,
        confirm_and_exit: false,
    }
}

/// The frame in which the primary button is let go with the pointer at
/// `at`.
pub open spec fn released_at(at: Point, window: Size) -> FrameInput {
    FrameInput {
        window,
        pointer: Some(at),
        cancel: false,
        primary_down: false,
        primary_released: true,
        secondary_down: false,
        confirm: false,
        confirm_and_exit: false,
    }
}

/// The selection after a drag from `from` to `to`: a press at `from`, then
/// a release at `to`.
pub open spec fn after_drag(
    state: SelectionState,
    from: Point,
    to: Point,
    window: Size,
    image: Size,
) -> SelectionState {
    next_state(next_state(state, held_at(from, window), image), released_at(to, window), image)
}

/// A drag selects the rectangle between the point of the press and the
/// point of the release, whichever of the two is the top left one: dragging
/// from `a` to `b` and dragging from `b` to `a` export the same rectangle.
pub proof fn lemma_drag_selects(
    state: SelectionState,
    a: Point,
    b: Point,
    commit: Commit,
    window: Size,
    image: Size,
)
    requires
        !state.pressed,
    ensures
        effective_rect(after_drag(state, a, b, window, image), commit, window, image) == normalized(
            a,
            b,
        ),
        effective_rect(after_drag(state, b, a, window, image), commit, window, image) == normalized(
            a,
            b,
        ),
        !after_drag(state, a, b, window, image).pressed,
{
}

/// The order in which the corners were dragged does not matter: swapping
/// the anchor and the drag corner leaves the exported rectangle as it is.
pub proof fn lemma_drag_order_irrelevant(
    state: SelectionState,
    commit: Commit,
    window: Size,
    image: Size,
)
    ensures
        effective_rect(state, commit, window, image) == effective_rect(
            SelectionState {
                anchor_corner: state.drag_corner,
                drag_corner: state.anchor_corner,
                pressed: state.pressed,
                committed_rect: state.committed_rect,
            },
            commit,
            window,
            image,
        ),
{
}

} // verus!
