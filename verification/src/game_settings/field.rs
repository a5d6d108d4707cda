//! The play area.

use vstd::prelude::*;

verus! {

/// The rectangle in which the game takes place, in whole units.
#[derive(Clone, Copy, Debug, PartialEq, Eq, Structural)]
pub struct Field {
    /// The width of the field
    pub width: i32,
    /// The height of the field
    pub height: i32,
}

impl Field {
    /// Creates a field with the given width and height.
    pub fn new(width: i32, height: i32) -> (field: Self)
        ensures
            field.width == width,
            field.height == height,
    {
        Self { width, height }
    }
}

} // verus!
