//! Window sizes.

use vstd::prelude::*;

verus! {

/// A size in whole pixels, physical or logical as the place that it stands in says.
#[derive(Clone, Copy, Debug, PartialEq, Eq, Structural)]
pub struct PixelSize {
    pub width: u32,
    pub height: u32,
}

/// A size with its unit. `L` is a size in logical pixels, which may have a fraction.
#[derive(Clone, Copy, Debug)]
pub enum Size<L> {
    Logical(L),
    Physical(PixelSize),
}

} // verus!
