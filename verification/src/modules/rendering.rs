//! What the drawing code needs to know of a form and cannot read off a
//! field by itself: where on the screen the cursor of a field stands.

use vstd::prelude::*;

verus! {

/// The screen column of a cursor, or the last column that a screen can
/// have where the cursor lies beyond it.
pub open spec fn column_of(left: int, index: int) -> int {
    if left + index + 1 <= u16::MAX {
        left + index + 1
    } else {
        u16::MAX as int
    }
}

/// The screen column at which to show the cursor of a field that is drawn
/// in a box whose left border stands in column `left`: one column for the
/// border, one for each character in front of the cursor.
pub fn cursor_column(left: u16, index: usize) -> (column: u16)
    ensures
        column == column_of(left as int, index as int),
{
    let room: u16 = u16::MAX - left;
    if index < room as usize {
        left + index as u16 + 1
    } else {
        u16::MAX
    }
}

} // verus!
