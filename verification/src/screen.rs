//! What the taskbar takes of the screen.

use vstd::prelude::*;

verus! {

/// The height that is taken for the taskbar where the system does not tell.
pub const DEFAULT_TASKBAR_HEIGHT: i64 = 40;

/// A rectangle on the screen by its four edges.
#[derive(Clone, Copy, Debug, PartialEq, Eq, Structural)]
pub struct Rect {
    pub left: i32,
    pub top: i32,
    pub right: i32,
    pub bottom: i32,
}

/// The taskbar's height: the distance from the top edge of its rectangle to
/// the bottom edge where the query succeeded, which a status other than zero
/// says, and the default height where it failed.
pub open spec fn taskbar_height_of(status: usize, bounds: Rect) -> int {
    if status != 0 {
        bounds.bottom - bounds.top
    } else {
        DEFAULT_TASKBAR_HEIGHT as int
    }
}

/// The taskbar's height from the answer to a query for the taskbar's
/// position: `status` is what the query returned, `bounds` the rectangle that
/// it filled in.
pub fn taskbar_height(status: usize, bounds: Rect) -> (height: i64)
    ensures
        height == taskbar_height_of(status, bounds),
{
    if status != 0 {
        (bounds.bottom as i64) - (bounds.top as i64)
    } else {
        DEFAULT_TASKBAR_HEIGHT
    }
}

} // verus!
