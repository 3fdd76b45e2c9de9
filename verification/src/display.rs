//! The position at which a display draws the program output.
use vstd::prelude::*;

verus! {

/// Where a display draws the program output, in window coordinates.
pub struct LockedPosition {
    pub x: i32,
    pub y: i32,
}

/// Where a new display first draws: a display drawn into a child window of its own (made
/// only on Windows) draws at the child window's origin; any other display draws at the
/// requested position.
pub fn initial_display_position(create_child: bool, on_windows: bool, x: i32, y: i32) -> (r: (i32, i32))
    ensures
        create_child && on_windows ==> r == (0i32, 0i32),
        !(create_child && on_windows) ==> r == (x, y),
{
    if create_child && on_windows {
        (0, 0)
    } else {
        (x, y)
    }
}

} // verus!
