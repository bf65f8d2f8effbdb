//! Plain geometric values shared by the drawing code.

use vstd::prelude::*;

verus! {

/// A position in pixels.
#[derive(Clone, Copy, Debug, PartialEq, Eq, Structural)]
pub struct Position {
    pub x: i32,
    pub y: i32,
}

/// A width and a height in pixels.
#[derive(Clone, Copy, Debug, PartialEq, Eq, Structural)]
pub struct Size {
    pub w: u32,
    pub h: u32,
}

/// An axis-aligned rectangle: its top-left corner and its extent.
#[derive(Clone, Copy, Debug, PartialEq, Eq, Structural)]
pub struct Rect {
    pub x: i32,
    pub y: i32,
    pub w: u32,
    pub h: u32,
}

/// One textured copy: the part of the texture to read (`None` for all of it)
/// and the rectangle of the target to fill with it.
#[derive(Clone, Copy, Debug, PartialEq, Eq)]
pub struct Blit {
    pub clip: Option<Rect>,
    pub dest: Rect,
}

impl Rect {
    /// The rectangle with corner `(x, y)`, `w` wide and `h` high.
    pub fn new(x: i32, y: i32, w: u32, h: u32) -> (r: Rect)
        ensures
            r == (Rect { x, y, w, h }),
    {
        Rect { x, y, w, h }
    }

    /// The rectangle at the same place with the extent `size`.
    pub fn with_size(self, size: Size) -> (r: Rect)
        ensures
            r == (Rect { w: size.w, h: size.h, ..self }),
    {
        Rect { x: self.x, y: self.y, w: size.w, h: size.h }
    }

    /// The extent of the rectangle.
    pub fn size(self) -> (s: Size)
        ensures
            s == (Size { w: self.w, h: self.h }),
    {
        Size { w: self.w, h: self.h }
    }
}

} // verus!
