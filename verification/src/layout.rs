//! Screen positions and the rectangle occupied by a rendered prompt.

use vstd::prelude::*;

verus! {

/// Screen coordinates are measured in this unit.
pub type Unit = u32;

/// A screen cell: `row` and `col` are zero-based and count from the top-left
/// corner of the rendered region.
#[derive(Clone, Copy, Debug, PartialEq, Eq, Structural)]
pub struct Position {
    pub row: Unit,
    pub col: Unit,
}

/// The screen region occupied by the last rendered prompt, input and hint:
/// `start` is where rendering began, `end` is where the cursor landed.
#[derive(Clone, Copy, Debug, PartialEq, Eq, Structural)]
pub struct Layout {
    pub start: Position,
    pub end: Position,
}

impl Layout {
    /// A layout is well formed when its end does not precede its start.
    pub open spec fn wf(&self) -> bool {
        self.start.row <= self.end.row
    }
}

} // verus!
