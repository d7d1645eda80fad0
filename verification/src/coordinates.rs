use vstd::prelude::*;

verus! {

/// Orientation of a finite coordinate plane: where its origin sits and
/// which way its y axis grows.
#[derive(Debug, Clone, Copy, PartialEq, Eq, Structural)]
pub enum Orientation {
    SCREEN,
    CARTESIAN,
}

impl Orientation {
    /// The axis direction factors of this orientation: `1` for an axis
    /// that grows with the coordinate, `-1` for one that is flipped.
    pub open spec fn spec_values(self) -> (i8, i8) {
        match self {
            // Origin in the top left; y grows downward.
            Orientation::SCREEN => (1i8, -1i8),
            // Origin in the bottom left; y grows upward.
            Orientation::CARTESIAN => (1i8, 1i8),
        }
    }

    /// Returns the `(x, y)` axis direction factors of this orientation.
    pub fn values(&self) -> (r: (i8, i8))
        ensures
            r == self.spec_values(),
    {
        match self {
            Orientation::SCREEN => (1i8, -1i8),
            Orientation::CARTESIAN => (1i8, 1i8),
        }
    }
}

} // verus!
