//! The four particle categories.

use vstd::prelude::*;

verus! {

/// A particle's category: one of four fixed values. The category of a
/// particle never changes; it selects the row (as source) or column (as
/// target) of the coefficient matrix.
#[derive(Clone, Copy, PartialEq, Eq, Structural, Debug)]
pub enum Category {
    Red,
    Blue,
    Green,
    Yellow,
}

} // verus!
