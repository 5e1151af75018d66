//! The rectangle that the word list occupies on screen.

use vstd::prelude::*;

verus! {

/// A rectangular region of the terminal, in character cells.
#[derive(Clone, Copy, Debug)]
pub struct Rect {
    pub x: u16,
    pub y: u16,
    pub height: u16,
    pub width: u16,
}

impl Rect {
    /// Whether the cell `(x, y)` lies in the region, both far edges included.
    pub open spec fn covers(self, x: int, y: int) -> bool {
        &&& self.x <= x <= self.x + self.width
        &&& self.y <= y <= self.y + self.height
    }

    /// The row of the region, counted from its top, on which line `y` lies.
    pub open spec fn row_of(self, y: int) -> int {
        y - self.y
    }

    /// The region with its top left corner at `(x, y)`, `height` lines high
    /// and `width` columns wide.
    pub fn new(x: u16, y: u16, height: u16, width: u16) -> (rect: Rect)
        ensures
            rect.x == x,
            rect.y == y,
            rect.height == height,
            rect.width == width,
    {
        Rect { x, y, height, width }
    }

    /// The empty region at the origin, used until the list is first drawn.
    pub fn default() -> (rect: Rect)
        ensures
            rect.x == 0,
            rect.y == 0,
            rect.height == 0,
            rect.width == 0,
    {
        Rect { x: 0, y: 0, height: 0, width: 0 }
    }

    /// Hit test for a pointer position. The far edges count as inside, so a
    /// click on the border of the list still registers.
    pub fn contains(self, x: u16, y: u16) -> (inside: bool)
        ensures
            inside == self.covers(x as int, y as int),
    {
        let right: u32 = self.x as u32 + self.width as u32;
        let bottom: u32 = self.y as u32 + self.height as u32;
        x as u32 <= right && x >= self.x && y >= self.y && y as u32 <= bottom
    }

    /// The row of the region, counted from its top, on which line `y` lies.
    /// It is a row of the region only where the region contains the line.
    pub fn row_offset(self, y: u16) -> (row: i32)
        ensures
            row == self.row_of(y as int),
    {
        y as i32 - self.y as i32
    }

    /// The lines of a bordered list block on which its items are drawn, as the
    /// pointer reports them: the layout counts lines from 0 and the pointer
    /// from 1, and the border takes one line at either end.
    pub fn list_area(self) -> (area: Rect)
        requires
            self.y + 2 <= u16::MAX,
            self.height >= 2,
        ensures
            area.x == self.x,
            area.y == self.y + 2,
            area.height == self.height - 2,
            area.width == self.width,
    {
        Rect::new(self.x, self.y + 2, self.height - 2, self.width)
    }
}

/// The four corners of a region lie inside it, far edges included, and the
/// cell to the left of its top left corner lies outside.
pub proof fn lemma_corners(rect: Rect)
    ensures
        rect.covers(rect.x as int, rect.y as int),
        rect.covers(rect.x + rect.width, rect.y as int),
        rect.covers(rect.x as int, rect.y + rect.height),
        rect.covers(rect.x + rect.width, rect.y + rect.height),
        !rect.covers(rect.x - 1, rect.y as int),
{
}

} // verus!
