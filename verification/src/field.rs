//! Static geometry of the playfield, consumed by every other component.

use vstd::prelude::*;

verus! {

/// Field width in cells (walls not counted).
pub const WID: i32 = 18;

/// Field height in cells.
pub const HEI: i32 = 30;

/// Left edge of the field in pixels.
pub const LEFT: i32 = crate::CHAR * 1;

/// Right edge of the field in pixels.
pub const RIGHT: i32 = LEFT + (crate::CHAR * WID) - 1;

/// Top edge of the field in pixels.
pub const TOP: i32 = 0;

/// Number of cells in one generated floor run.
pub const FLOORWID: i32 = 5;

} // verus!
