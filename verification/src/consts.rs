//! Distances, in pixels of the screen, that separate a hit from a miss and a click from a drag.

use vstd::prelude::*;

verus! {

/// The travel of the pointer between press and release from which on a gesture is a drag;
/// a gesture that stays below it is a click.
pub const DRAG_THRESHOLD: u32 = 1;

/// How near to a point a press must land to grab it; the boundary counts.
pub const SELECTION_THRESHOLD: u32 = 10;

/// How near to a point or a segment the pointer must be for a point to be inserted or flipped there.
pub const SELECTION_TOLERANCE: u32 = 5;

} // verus!
