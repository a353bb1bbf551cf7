//! Surfaces: the rectangles of the terminal that widgets own, as plain numbers.

use crate::prefs::Color;
use vstd::prelude::*;

verus! {

/// A pair of colours, foreground and background, that writes on a surface take.
#[derive(Clone, Copy, Debug, PartialEq, Eq, Hash, Structural)]
pub struct Channels {
    pub fg: Color,
    pub bg: Color,
}

/// A rectangle of the terminal: where its top left corner lies within its
/// parent, how wide and high it is, and how it is painted.
#[derive(Clone, Copy, Debug, PartialEq, Eq, Hash, Structural)]
pub struct Surface {
    /// The column of the left edge within the parent.
    pub x: i64,
    /// The row of the top edge within the parent.
    pub y: i64,
    /// The width in columns.
    pub dim_x: u32,
    /// The height in rows.
    pub dim_y: u32,
    /// The colours of the surface, where it has any of its own.
    pub channels: Option<Channels>,
    /// Whether text on the surface is bold.
    pub bold: bool,
}

/// The largest distance from the origin at which the library places a surface.
pub const REACH: i64 = 0x100_0000_0000;

impl Surface {
    /// The surface moved by `dx` columns and `dy` rows.
    pub open spec fn moved(self, dx: int, dy: int) -> Surface {
        Surface { x: (self.x + dx) as i64, y: (self.y + dy) as i64, ..self }
    }

    /// Whether the surface lies within `REACH` of the origin.
    pub open spec fn in_reach(self) -> bool {
        -REACH <= self.x <= REACH && -REACH <= self.y <= REACH
    }

    /// A surface without colours of its own, at `(x, y)`.
    pub fn new(x: i64, y: i64, dim_x: u32, dim_y: u32) -> (made: Surface)
        ensures
            made == (Surface { x, y, dim_x, dim_y, channels: None, bold: false }),
    {
        Surface { x, y, dim_x, dim_y, channels: None, bold: false }
    }

    /// A surface painted in `fg` on `bg`, at `(x, y)`.
    pub fn painted(x: i64, y: i64, dim_x: u32, dim_y: u32, fg: Color, bg: Color, bold: bool) -> (made:
        Surface)
        ensures
            made == (Surface { x, y, dim_x, dim_y, channels: Some(Channels { fg, bg }), bold }),
    {
        Surface { x, y, dim_x, dim_y, channels: Some(Channels { fg, bg }), bold }
    }

    /// Moves the surface by `dx` columns and `dy` rows.
    pub fn move_rel(&mut self, dx: i64, dy: i64)
        requires
            old(self).in_reach(),
            -REACH <= dx <= REACH,
            -REACH <= dy <= REACH,
        ensures
            *final(self) == old(self).moved(dx as int, dy as int),
            final(self).x == old(self).x + dx,
            final(self).y == old(self).y + dy,
    {
        self.x = self.x + dx;
        self.y = self.y + dy;
    }
}

} // verus!
