//! Constants needed to parse markdown.

use vstd::prelude::*;

verus! {

/// The number of columns a tab occupies.
pub const TAB_SIZE: usize = 4;

/// The number of markers needed for a thematic break to form.
pub const THEMATIC_BREAK_MARKER_COUNT_MIN: usize = 3;

/// The number of markers needed for code (fenced) to form.
pub const CODE_FENCED_SEQUENCE_SIZE_MIN: usize = 3;

/// The number of markers needed for math (flow) to form.
pub const MATH_FLOW_SEQUENCE_SIZE_MIN: usize = 2;

/// The max number of bytes allowed in a label (of a reference or definition).
pub const LINK_REFERENCE_SIZE_MAX: usize = 999;

/// The number of trailing spaces at least needed for a hard break
/// (trailing).
pub const HARD_BREAK_PREFIX_SIZE_MIN: usize = 2;

/// The max number of decimals allowed in the value of an ordered list item.
pub const LIST_ITEM_VALUE_SIZE_MAX: usize = 10;

} // verus!
