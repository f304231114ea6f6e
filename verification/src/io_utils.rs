//! The escape sequences that colour the text of the tracker.
use vstd::prelude::*;

verus! {

/// Back to the terminal's own colour.
pub const DFT: &'static str = "\x1B[0m";

/// Green, for headings and the bars between columns.
pub const GREEN: &'static str = "\x1B[38;2;20;198;13m";

/// Red, for the keys that the user may press.
pub const RED: &'static str = "\x1B[38;2;255;0;0m";

} // verus!
