//! The rectangular grid of tiles, its neighbour queries, and the batch
//! recomputation of every tile's cached neighbours.

use crate::tile::{
    lemma_neighbor_mask_expanded, lemma_neighbor_mask_extremes, neighbor_counts, Tile, TileId,
    TileView,
};
use vstd::prelude::*;

verus! {

/// The decimal digit that stands for `d`, a number below ten.
pub open spec fn digit_char(d: nat) -> char {
    if d == 0 {
        '0'
    } else if d == 1 {
        '1'
    } else if d == 2 {
        '2'
    } else if d == 3 {
        '3'
    } else if d == 4 {
        '4'
    } else if d == 5 {
        '5'
    } else if d == 6 {
        '6'
    } else if d == 7 {
        '7'
    } else if d == 8 {
        '8'
    } else {
        '9'
    }
}

/// `n` written in decimal, without sign, padding or leading zeros.
pub open spec fn decimal_text(n: nat) -> Seq<char>
    decreases n,
{
    if n < 10 {
        seq![digit_char(n)]
    } else {
        decimal_text(n / 10).push(digit_char(n % 10))
    }
}

/// The text of the error for a coordinate outside the grid: it names the
/// coordinate in decimal.
pub open spec fn out_of_bounds_text(x: usize, y: usize) -> Seq<char> {
    "The tile at ("@ + decimal_text(x as nat) + ", "@ + decimal_text(y as nat)
        + ") is out of bounds"@
}

/// Calls `format!` of std to render the out-of-bounds message for `(x, y)`.
/// Not proved: that `format!` puts the two numbers into the text as std's
/// `Display` for `usize` writes them, in decimal without sign or padding.
#[verifier::external_body]
fn out_of_bounds_message(x: usize, y: usize) -> (msg: String)
    ensures
        msg@ == out_of_bounds_text(x, y),
{
    format!("The tile at ({}, {}) is out of bounds", x, y)
}

/// Horizontal step of direction `i`: west is -1, east is +1.
pub open spec fn direction_dx(i: int) -> int {
    if i == 0 {
        -1
    } else if i == 2 {
        1
    } else {
        0
    }
}

/// Vertical step of direction `i`: south is +1, north is -1 (y grows downward).
pub open spec fn direction_dy(i: int) -> int {
    if i == 1 {
        1
    } else if i == 3 {
        -1
    } else {
        0
    }
}

/// A grid as mathematics: `tiles[x][y]` is the tile in column `x`, row `y`.
#[verifier::ext_equal]
pub ghost struct WorldView {
    pub width: nat,
    pub height: nat,
    pub tiles: Seq<Seq<TileView>>,
}

impl WorldView {
    /// The grid has `width` columns of `height` tiles each.
    pub open spec fn well_formed(self) -> bool {
        &&& self.tiles.len() == self.width
        &&& forall|x: int| 0 <= x < self.width ==> (#[trigger] self.tiles[x]).len() == self.height
    }

    /// `(x, y)` names a cell of the grid.
    pub open spec fn in_bounds(self, x: int, y: int) -> bool {
        0 <= x < self.width && 0 <= y < self.height
    }

    /// The kind at `(x, y)`, or `None` where `(x, y)` lies off the grid.
    pub open spec fn kind_at(self, x: int, y: int) -> Option<TileId> {
        if self.in_bounds(x, y) {
            Some(self.tiles[x][y].id)
        } else {
            None
        }
    }

    /// The kinds around `(x, y)` in the order west, south, east, north.
    pub open spec fn neighbors_of(self, x: int, y: int) -> Seq<Option<TileId>> {
        Seq::new(4, |i: int| self.kind_at(x + direction_dx(i), y + direction_dy(i)))
    }

    /// The grid with the tile at `(x, y)` replaced by `t`.
    pub open spec fn with_tile(self, x: int, y: int, t: TileView) -> WorldView {
        WorldView { tiles: self.tiles.update(x, self.tiles[x].update(y, t)), ..self }
    }

    /// The grid in which every tile caches the kinds that now surround it.
    pub open spec fn recached(self) -> WorldView {
        WorldView {
            tiles: Seq::new(
                self.width,
                |x: int|
                    Seq::new(
                        self.height,
                        |y: int| self.tiles[x][y].with_neighbors(self.neighbors_of(x, y)),
                    ),
            ),
            ..self
        }
    }
}

/// A `width` by `height` grid of tiles, stored column by column.
pub struct World {
    width: usize,
    height: usize,
    tiles: Vec<Vec<Tile>>,
}

impl View for World {
    type V = WorldView;

    closed spec fn view(&self) -> WorldView {
        WorldView {
            width: self.width as nat,
            height: self.height as nat,
            tiles: Seq::new(
                self.width as nat,
                |x: int| Seq::new(self.height as nat, |y: int| self.tiles[x][y]@),
            ),
        }
    }
}

impl World {
    /// The stored columns match the stated dimensions.
    pub closed spec fn wf(&self) -> bool {
        &&& self.tiles.len() == self.width
        &&& forall|x: int| 0 <= x < self.width ==> (#[trigger] self.tiles[x]).len() == self.height
    }

    /// The view of a world is a grid of its dimensions, so a tile read from
    /// the view after an edit through `get_tile_mut` is the edited one.
    pub proof fn lemma_view_well_formed(&self)
        requires
            self.wf(),
        ensures
            self@.well_formed(),
    {
    }

    /// A grid of fresh tiles: every tile is what `Tile::new` gives.
    pub fn new(width: usize, height: usize) -> (w: World)
        ensures
            w.wf(),
            w@.width == width,
            w@.height == height,
            w@.well_formed(),
            forall|x: int, y: int|
                0 <= x < width && 0 <= y < height ==> #[trigger] w@.tiles[x][y] == TileView::fresh(),
    {
        let mut tiles: Vec<Vec<Tile>> = Vec::with_capacity(width);
        let mut x: usize = 0;
        while x < width
            invariant
                x <= width,
                tiles.len() == x,
                forall|a: int| 0 <= a < x ==> (#[trigger] tiles[a]).len() == height,
                forall|a: int, b: int|
                    0 <= a < x && 0 <= b < height ==> (#[trigger] tiles[a][b])@ == TileView::fresh(),
            decreases width - x,
        {
            let mut col: Vec<Tile> = Vec::with_capacity(height);
            let mut y: usize = 0;
            while y < height
                invariant
                    y <= height,
                    col.len() == y,
                    forall|b: int|
                        0 <= b < y ==> (#[trigger] col[b])@ == TileView::fresh(),
                decreases height - y,
            {
                col.push(Tile::new());
                y = y + 1;
            }
            tiles.push(col);
            x = x + 1;
        }
        World { width, height, tiles }
    }

    /// The number of columns.
    pub fn width(&self) -> (w: usize)
        ensures
            w == self@.width,
    {
        self.width
    }

    /// The number of rows.
    pub fn height(&self) -> (h: usize)
        ensures
            h == self@.height,
    {
        self.height
    }

    /// The tile at `(x, y)`, or the out-of-bounds error exactly when
    /// `x >= width` or `y >= height`.
    pub fn get_tile(&self, x: usize, y: usize) -> (r: Result<&Tile, String>)
        requires
            self.wf(),
        ensures
            r is Ok <==> self@.in_bounds(x as int, y as int),
            r matches Ok(t) ==> t@ == self@.tiles[x as int][y as int],
            r matches Err(msg) ==> msg@ == out_of_bounds_text(x, y),
    {
        if x >= self.width || y >= self.height {
            Err(out_of_bounds_message(x, y))
        } else {
            Ok(&self.tiles[x][y])
        }
    }

    /// Exclusive access to the tile at `(x, y)`: what the caller leaves in it is
    /// what the world then holds there, and nothing else changes.
    pub fn get_tile_mut(&mut self, x: usize, y: usize) -> (r: Result<&mut Tile, String>)
        requires
            old(self).wf(),
        ensures
            final(self).wf(),
            final(self)@.well_formed(),
            r is Ok <==> old(self)@.in_bounds(x as int, y as int),
            r matches Ok(t) ==> t@ == old(self)@.tiles[x as int][y as int],
            r matches Ok(t) ==> final(self)@ =~~= old(self)@.with_tile(
                x as int,
                y as int,
                final(t)@,
            ),
            r matches Err(msg) ==> msg@ == out_of_bounds_text(x, y) && final(self)@ == old(self)@,
    {
        if x >= self.width || y >= self.height {
            Err(out_of_bounds_message(x, y))
        } else {
            Ok(&mut self.tiles[x][y])
        }
    }

    /// The kinds of the four cells around `(x, y)`, west, south, east, north;
    /// `None` stands for a cell beyond the edge of the grid.
    pub fn get_neighbors_to(&self, x: usize, y: usize) -> (r: Result<[Option<TileId>; 4], String>)
        requires
            self.wf(),
        ensures
            r is Ok <==> self@.in_bounds(x as int, y as int),
            r matches Ok(neighbors) ==> neighbors@ == self@.neighbors_of(x as int, y as int),
            r matches Err(msg) ==> msg@ == out_of_bounds_text(x, y),
    {
        if x >= self.width || y >= self.height {
            Err(out_of_bounds_message(x, y))
        } else {
            let west = if x == 0 {
                None
            } else {
                Some(self.tiles[x - 1][y].get_id())
            };
            let south = if y + 1 >= self.height {
                None
            } else {
                Some(self.tiles[x][y + 1].get_id())
            };
            let east = if x + 1 >= self.width {
                None
            } else {
                Some(self.tiles[x + 1][y].get_id())
            };
            let north = if y == 0 {
                None
            } else {
                Some(self.tiles[x][y - 1].get_id())
            };
            let neighbors: [Option<TileId>; 4] = [west, south, east, north];
            assert(neighbors@ =~= self@.neighbors_of(x as int, y as int));
            Ok(neighbors)
        }
    }

    /// Writes to every tile the kinds that surround it, which recomputes its
    /// mask. Kinds, frames and solidity stay as they are.
    pub fn update_cached_neighbors(&mut self)
        requires
            old(self).wf(),
        ensures
            final(self).wf(),
            final(self)@.well_formed(),
            final(self)@ == old(self)@.recached(),
            forall|x: int, y: int|
                final(self)@.in_bounds(x, y) ==> {
                    let t = #[trigger] final(self)@.tiles[x][y];
                    &&& t.neighbors == final(self)@.neighbors_of(x, y)
                    &&& t.mask_is_current()
                    &&& t.id == old(self)@.tiles[x][y].id
                    &&& t.frame == old(self)@.tiles[x][y].frame
                    &&& t.solid == old(self)@.tiles[x][y].solid
                },
    {
        let ghost before = self@;
        let mut i: usize = 0;
        while i < self.width
            invariant
                self.wf(),
                i <= self.width,
                self@.width == before.width,
                self@.height == before.height,
                before.well_formed(),
                forall|x: int, y: int|
                    0 <= x < self.width && 0 <= y < self.height ==> #[trigger] self@.tiles[x][y]
                        == (if x < i {
                        before.recached().tiles[x][y]
                    } else {
                        before.tiles[x][y]
                    }),
            decreases self.width - i,
        {
            let mut j: usize = 0;
            while j < self.height
                invariant
                    self.wf(),
                    i < self.width,
                    j <= self.height,
                    self@.width == before.width,
                    self@.height == before.height,
                    before.well_formed(),
                    forall|x: int, y: int|
                        0 <= x < self.width && 0 <= y < self.height
                            ==> #[trigger] self@.tiles[x][y] == (if x < i || (x == i && y < j) {
                            before.recached().tiles[x][y]
                        } else {
                            before.tiles[x][y]
                        }),
                decreases self.height - j,
            {
                let ghost here = self@;
                let found = self.get_neighbors_to(i, j);
                match found {
                    Ok(neighbors) => {
                        assert(neighbors@ =~= before.neighbors_of(i as int, j as int));
                        let t = &mut self.tiles[i][j];
                        t.set_neighbors(neighbors);
                        assert(self@ =~~= here.with_tile(
                            i as int,
                            j as int,
                            here.tiles[i as int][j as int].with_neighbors(neighbors@),
                        ));
                    },
                    Err(_) => {},
                }
                j = j + 1;
            }
            i = i + 1;
        }
        assert(self@ =~~= before.recached());
        assert forall|x: int, y: int| self@.in_bounds(x, y) implies {
            let t = #[trigger] self@.tiles[x][y];
            &&& t.neighbors == self@.neighbors_of(x, y)
            &&& t.mask_is_current()
            &&& t.id == before.tiles[x][y].id
            &&& t.frame == before.tiles[x][y].frame
            &&& t.solid == before.tiles[x][y].solid
        } by {
            lemma_recached_tiles(before, x, y);
        }
    }
}

/// The entry for direction `i` is `None` exactly when the cell one step in
/// that direction lies off the grid; otherwise it is the kind of that cell.
pub proof fn lemma_neighbor_none_iff_off_grid(w: WorldView, x: int, y: int, i: int)
    requires
        0 <= i < 4,
    ensures
        w.neighbors_of(x, y)[i] is None <==> !w.in_bounds(x + direction_dx(i), y + direction_dy(i)),
        w.in_bounds(x + direction_dx(i), y + direction_dy(i)) ==> w.neighbors_of(x, y)[i] == Some(
            w.tiles[x + direction_dx(i)][y + direction_dy(i)].id,
        ),
{
}

/// A tile on a border has `None` toward that border: west in column 0, south
/// in the last row, east in the last column, north in row 0. Away from that
/// border the entry is `Some`.
pub proof fn lemma_border_neighbors(w: WorldView, x: int, y: int)
    requires
        w.in_bounds(x, y),
    ensures
        w.neighbors_of(x, y)[0] is None <==> x == 0,
        w.neighbors_of(x, y)[1] is None <==> y == w.height - 1,
        w.neighbors_of(x, y)[2] is None <==> x == w.width - 1,
        w.neighbors_of(x, y)[3] is None <==> y == 0,
{
}

/// After a recache every tile holds the kinds around it and the mask that
/// belongs to them, and its kind, frame and solidity are as before.
pub proof fn lemma_recached_tiles(w: WorldView, x: int, y: int)
    requires
        w.in_bounds(x, y),
    ensures
        w.recached().tiles[x][y].neighbors == w.neighbors_of(x, y),
        w.recached().tiles[x][y].mask_is_current(),
        w.recached().tiles[x][y].id == w.tiles[x][y].id,
        w.recached().tiles[x][y].frame == w.tiles[x][y].frame,
        w.recached().tiles[x][y].solid == w.tiles[x][y].solid,
        w.recached().neighbors_of(x, y) == w.neighbors_of(x, y),
{
    lemma_neighbor_mask_expanded(w.neighbors_of(x, y));
    assert(w.recached().neighbors_of(x, y) =~= w.neighbors_of(x, y));
}

/// Recaching is idempotent: a second recache with no edit in between changes
/// nothing.
pub proof fn lemma_recache_idempotent(w: WorldView)
    ensures
        w.recached().recached() == w.recached(),
{
    let once = w.recached();
    assert forall|x: int, y: int| 0 <= x < w.width && 0 <= y < w.height implies (
    #[trigger] once.recached().tiles[x][y]) == once.tiles[x][y] by {
        lemma_recached_tiles(w, x, y);
        lemma_neighbor_mask_expanded(w.neighbors_of(x, y));
    }
    assert(once.recached() =~~= once);
}

/// Where no tile of the grid is `Nothing`, every tile has mask 15 after a
/// recache: the edge counts like a neighbour that is there.
pub proof fn lemma_full_world_masks(w: WorldView, x: int, y: int)
    requires
        w.in_bounds(x, y),
        forall|a: int, b: int| w.in_bounds(a, b) ==> (#[trigger] w.tiles[a][b]).id != TileId::Nothing,
    ensures
        w.recached().tiles[x][y].neighbor_bf == 15,
{
    let around = w.neighbors_of(x, y);
    assert forall|i: int| 0 <= i < 4 implies neighbor_counts(#[trigger] around[i]) by {
        let a = x + direction_dx(i);
        let b = y + direction_dy(i);
        if w.in_bounds(a, b) {
            assert(w.tiles[a][b].id != TileId::Nothing);
        }
    }
    lemma_neighbor_mask_extremes(around);
}

/// A tile whose four neighbours are on the grid and all `Nothing` has mask 0
/// after a recache, whatever its own kind.
pub proof fn lemma_isolated_tile_mask(w: WorldView, x: int, y: int)
    requires
        forall|i: int|
            0 <= i < 4 ==> w.kind_at(x + direction_dx(i), y + direction_dy(i)) == Some(
                TileId::Nothing,
            ),
        w.in_bounds(x, y),
    ensures
        w.recached().tiles[x][y].neighbor_bf == 0,
{
    let around = w.neighbors_of(x, y);
    assert forall|i: int| 0 <= i < 4 implies !neighbor_counts(#[trigger] around[i]) by {
        assert(around[i] == w.kind_at(x + direction_dx(i), y + direction_dy(i)));
    }
    lemma_neighbor_mask_extremes(around);
}

/// The sole tile of a one-by-one grid has no neighbour on the grid, so after a
/// recache its four entries are `None` and its mask is 15.
pub proof fn lemma_single_tile_world(w: WorldView)
    requires
        w.width == 1,
        w.height == 1,
    ensures
        w.recached().tiles[0][0].neighbors == Seq::new(4, |i: int| None::<TileId>),
        w.recached().tiles[0][0].neighbor_bf == 15,
{
    assert(w.neighbors_of(0, 0) =~= Seq::new(4, |i: int| None::<TileId>));
    lemma_neighbor_mask_expanded(w.neighbors_of(0, 0));
}

} // verus!
