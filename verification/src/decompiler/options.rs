//! What a caller can set for one decompilation.

use vstd::prelude::*;

verus! {

/// Options of the decompiler.
#[derive(Debug, Clone, Copy)]
pub struct DecompileOptions {
    /// Spaces per indentation step; 0 renders everything on one line.
    pub indent: usize,
    /// The column that a line should not pass.
    pub max_col: usize,
    /// Whether escape sequences inside strings are resolved first.
    pub unescape: bool,
    /// Whether members keep their order; they always do.
    pub keep_order: bool,
}

impl Default for DecompileOptions {
    fn default() -> (r: Self)
        ensures
            r == (DecompileOptions { indent: 4, max_col: 100, unescape: false, keep_order: false }),
    {
        DecompileOptions { indent: 4, max_col: 100, unescape: false, keep_order: false }
    }
}

} // verus!
