use vstd::prelude::*;

verus! {

/// A logical buffer coordinate: `x` is the column, `y` the row index.
#[derive(Clone, Copy, Debug, Default, PartialEq, Eq, Structural)]
pub struct Position {
    pub x: usize,
    pub y: usize,
}

} // verus!
