use vstd::prelude::*;

verus! {

/// A point in window coordinates.
#[derive(Clone, Copy, Debug, PartialEq, Eq, Structural)]
pub struct Point {
    pub x: i64,
    pub y: i64,
}

/// The extent of a rendered surface.
#[derive(Clone, Copy, Debug, PartialEq, Eq, Structural)]
pub struct Size {
    pub width: u32,
    pub height: u32,
}

/// The screen bounds of a rendered element: its top-left corner and its size.
#[derive(Clone, Copy, Debug, PartialEq, Eq, Structural)]
pub struct Rect {
    pub x: i32,
    pub y: i32,
    pub width: u32,
    pub height: u32,
}

impl Rect {
    /// A rectangle with no area cannot serve as an anchor.
    pub open spec fn is_empty_spec(&self) -> bool {
        self.width == 0 || self.height == 0
    }

    pub fn is_empty(&self) -> (r: bool)
        ensures
            r == self.is_empty_spec(),
    {
        self.width == 0 || self.height == 0
    }
}

} // verus!
