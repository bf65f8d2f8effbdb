//! Which tiles of a world a rectangle in tile units shows.

use crate::common::Rect;
use vstd::prelude::*;

verus! {

/// The tiles with `x0 <= x < x1` and `y0 <= y < y1`.
#[derive(Clone, Copy, Debug, PartialEq, Eq, Structural)]
pub struct TileRange {
    pub x0: usize,
    pub x1: usize,
    pub y0: usize,
    pub y1: usize,
}

impl TileRange {
    /// `(x, y)` is one of the tiles of the range.
    pub open spec fn contains(self, x: int, y: int) -> bool {
        self.x0 <= x < self.x1 && self.y0 <= y < self.y1
    }
}

/// The coordinate `i` lies in the span of `len` cells that starts at `start`
/// and on an axis of `limit` cells.
pub open spec fn shown_on_axis(start: i32, len: u32, limit: usize, i: int) -> bool {
    start <= i < start + len && 0 <= i < limit
}

/// The part of the span of `len` cells from `start` that lies on an axis of
/// `limit` cells, as a half-open range; `(0, 0)` where there is none.
pub fn clip_axis(start: i32, len: u32, limit: usize) -> (r: (usize, usize))
    ensures
        r.0 <= r.1 <= limit,
        forall|i: int| r.0 <= i < r.1 <==> shown_on_axis(start, len, limit, i),
        r.0 == r.1 ==> r.0 == 0,
{
    let end: i64 = start as i64 + len as i64;
    if end <= 0 {
        return (0, 0);
    }
    let first: usize = if start <= 0 {
        0
    } else if start as u32 as usize >= limit {
        limit
    } else {
        start as u32 as usize
    };
    let last: usize = if end as u64 >= limit as u64 {
        limit
    } else {
        end as u64 as usize
    };
    if first >= last {
        (0, 0)
    } else {
        (first, last)
    }
}

/// The tiles of a `world_width` by `world_height` world that `bounds`, a
/// rectangle in tile units, shows: those inside both. Coordinates left of or
/// above the world, or beyond its last column or row, are left out.
pub fn visible_tiles(bounds: Rect, world_width: usize, world_height: usize) -> (r: TileRange)
    ensures
        forall|x: int, y: int|
            r.contains(x, y) <==> shown_on_axis(bounds.x, bounds.w, world_width, x)
                && shown_on_axis(bounds.y, bounds.h, world_height, y),
        r.x0 <= r.x1 <= world_width,
        r.y0 <= r.y1 <= world_height,
        r.x0 == r.x1 || r.y0 == r.y1 ==> r == (TileRange { x0: 0, x1: 0, y0: 0, y1: 0 }),
{
    let xs = clip_axis(bounds.x, bounds.w, world_width);
    let ys = clip_axis(bounds.y, bounds.h, world_height);
    if xs.0 >= xs.1 || ys.0 >= ys.1 {
        TileRange { x0: 0, x1: 0, y0: 0, y1: 0 }
    } else {
        TileRange { x0: xs.0, x1: xs.1, y0: ys.0, y1: ys.1 }
    }
}

} // verus!
