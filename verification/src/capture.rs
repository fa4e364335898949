//! What is decided before the capture is taken: which point picks the
//! screen, and where the capture is saved.

use crate::paths::{capture_path, capture_path_of, get_datetime};
use vstd::prelude::*;

verus! {

/// The folder, inside the user's pictures, that holds the captures.
pub const CAPTURE_FOLDER: &'static str = "screenshot-util";

/// The point whose screen is captured: the pointer's position where the
/// system reports one, the origin where it does not.
pub fn capture_point(reported: Option<(i32, i32)>) -> (point: (i32, i32))
    ensures
        point == match reported {
            Some(position) => position,
            None => (0i32, 0i32),
        },
{
    match reported {
        Some(position) => position,
        None => (0, 0),
    }
}

/// The name for a capture taken now, in `directory`.
pub fn capture_path_now(directory: &str) -> (path: String)
    ensures
        exists|timestamp: Seq<char>| path@ == #[trigger] capture_path_of(directory@, timestamp),
{
    let stamp = get_datetime();
    capture_path(directory, stamp.as_str())
}

} // verus!
