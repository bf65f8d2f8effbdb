//! A single cell of the world grid and the neighbour mask that picks its sprite row.

use crate::common::{Blit, Rect, Size};
use crate::sprite::{Sprite, SpriteView};
use vstd::arithmetic::power2::{lemma2_to64, pow2};
use vstd::prelude::*;

verus! {

/// The closed set of terrain kinds. `Nothing` stands for an absent tile.
#[derive(Clone, Copy, Debug, PartialEq, Eq, Structural)]
pub enum TileId {
    Nothing,
    Dirt,
    Stone,
    Grass,
}

/// Edge length of one tile cell, in pixels.
pub const TILE_SIZE: u32 = 8;

/// The name of a kind, as its sprite sheet's file name spells it.
pub open spec fn kind_name(id: TileId) -> Seq<char> {
    match id {
        TileId::Nothing => "Nothing"@,
        TileId::Dirt => "Dirt"@,
        TileId::Stone => "Stone"@,
        TileId::Grass => "Grass"@,
    }
}

/// The path of the sprite sheet of a kind: `sprites/Tile_`, the kind's name, `.png`.
pub open spec fn atlas_path_text(id: TileId) -> Seq<char> {
    "sprites/Tile_"@ + kind_name(id) + ".png"@
}

impl TileId {
    /// Every kind once, in the order of declaration.
    pub fn all() -> (kinds: [TileId; 4])
        ensures
            kinds@ == seq![TileId::Nothing, TileId::Dirt, TileId::Stone, TileId::Grass],
    {
        let kinds: [TileId; 4] = [TileId::Nothing, TileId::Dirt, TileId::Stone, TileId::Grass];
        assert(kinds@ =~= seq![TileId::Nothing, TileId::Dirt, TileId::Stone, TileId::Grass]);
        kinds
    }

    /// The kind's name as text.
    pub fn name(&self) -> (s: String)
        ensures
            s@ == kind_name(*self),
    {
        match self {
            TileId::Nothing => "Nothing".to_owned(),
            TileId::Dirt => "Dirt".to_owned(),
            TileId::Stone => "Stone".to_owned(),
            TileId::Grass => "Grass".to_owned(),
        }
    }
}

/// The path of the file that holds the sprite sheet of `id`.
pub fn atlas_path(id: TileId) -> (path: String)
    ensures
        path@ == atlas_path_text(id),
{
    proof {
        reveal_strlit("sprites/Tile_");
        reveal_strlit(".png");
        reveal_strlit("Nothing");
        reveal_strlit("Dirt");
        reveal_strlit("Stone");
        reveal_strlit("Grass");
        reveal_strlit("sprites/Tile_Nothing.png");
        reveal_strlit("sprites/Tile_Dirt.png");
        reveal_strlit("sprites/Tile_Stone.png");
        reveal_strlit("sprites/Tile_Grass.png");
    }
    match id {
        TileId::Nothing => {
            assert("sprites/Tile_Nothing.png"@ =~= atlas_path_text(id));
            "sprites/Tile_Nothing.png".to_owned()
        },
        TileId::Dirt => {
            assert("sprites/Tile_Dirt.png"@ =~= atlas_path_text(id));
            "sprites/Tile_Dirt.png".to_owned()
        },
        TileId::Stone => {
            assert("sprites/Tile_Stone.png"@ =~= atlas_path_text(id));
            "sprites/Tile_Stone.png".to_owned()
        },
        TileId::Grass => {
            assert("sprites/Tile_Grass.png"@ =~= atlas_path_text(id));
            "sprites/Tile_Grass.png".to_owned()
        },
    }
}

/// Direction of the west neighbour (x - 1) in a neighbour array.
pub const WEST: usize = 0;

/// Direction of the south neighbour (y + 1) in a neighbour array.
pub const SOUTH: usize = 1;

/// Direction of the east neighbour (x + 1) in a neighbour array.
pub const EAST: usize = 2;

/// Direction of the north neighbour (y - 1) in a neighbour array.
pub const NORTH: usize = 3;

/// What a tile holds, with the neighbour array as a sequence of length four.
#[verifier::ext_equal]
pub ghost struct TileView {
    pub id: TileId,
    pub neighbors: Seq<Option<TileId>>,
    pub frame: u32,
    pub solid: bool,
    pub neighbor_bf: u32,
}

impl TileView {
    /// A tile as it is made: kind `Nothing`, frame 0, not solid, empty air on
    /// all four sides, and so mask 0.
    pub open spec fn fresh() -> TileView {
        TileView {
            id: TileId::Nothing,
            neighbors: Seq::new(4, |i: int| Some(TileId::Nothing)),
            frame: 0,
            solid: false,
            neighbor_bf: 0,
        }
    }

    /// The stored mask is the mask of the stored neighbours. Every tile is in
    /// this state, from `Tile::new` on.
    pub open spec fn mask_is_current(self) -> bool {
        self.neighbor_bf == neighbor_mask(self.neighbors)
    }

    /// The tile after its neighbours were replaced: the mask follows them, the
    /// rest stays.
    pub open spec fn with_neighbors(self, neighbors: Seq<Option<TileId>>) -> TileView {
        TileView { neighbors, neighbor_bf: neighbor_mask(neighbors) as u32, ..self }
    }
}

/// A neighbour counts for blending when it lies off the world (`None`) or holds
/// anything but `Nothing`.
pub open spec fn neighbor_counts(n: Option<TileId>) -> bool {
    n != Some(TileId::Nothing)
}

/// The weight of direction `i` in the mask: two to the power `i`.
pub open spec fn direction_weight(i: int) -> nat {
    if i <= 0 {
        1
    } else if i == 1 {
        2
    } else if i == 2 {
        4
    } else if i == 3 {
        8
    } else {
        16
    }
}

/// The contribution of direction `i` to the mask of `neighbors`.
pub open spec fn direction_bit(neighbors: Seq<Option<TileId>>, i: int) -> nat {
    if neighbor_counts(neighbors[i]) {
        direction_weight(i)
    } else {
        0
    }
}

/// The sum of the contributions of the directions below `n`.
pub open spec fn mask_below(neighbors: Seq<Option<TileId>>, n: int) -> nat
    decreases n,
{
    if n <= 0 {
        0
    } else {
        mask_below(neighbors, n - 1) + direction_bit(neighbors, n - 1)
    }
}

/// The neighbour mask: the sum of `2^i` over the four directions that count.
pub open spec fn neighbor_mask(neighbors: Seq<Option<TileId>>) -> nat {
    mask_below(neighbors, 4)
}

/// The weight of each of the four directions is two to the power of its index.
pub proof fn lemma_direction_weight_is_power_of_two(i: int)
    requires
        0 <= i < 4,
    ensures
        direction_weight(i) == pow2(i as nat),
{
    lemma2_to64();
}

/// The mask written out direction by direction; it never exceeds 15.
pub proof fn lemma_neighbor_mask_expanded(neighbors: Seq<Option<TileId>>)
    ensures
        neighbor_mask(neighbors) == direction_bit(neighbors, 0) + direction_bit(neighbors, 1)
            + direction_bit(neighbors, 2) + direction_bit(neighbors, 3),
        neighbor_mask(neighbors) <= 15,
{
    reveal_with_fuel(mask_below, 5);
}

/// The mask is 15 exactly when all four neighbours count, and 0 exactly when none does.
pub proof fn lemma_neighbor_mask_extremes(neighbors: Seq<Option<TileId>>)
    ensures
        neighbor_mask(neighbors) == 15 <==> (forall|i: int|
            0 <= i < 4 ==> neighbor_counts(#[trigger] neighbors[i])),
        neighbor_mask(neighbors) == 0 <==> (forall|i: int|
            0 <= i < 4 ==> !neighbor_counts(#[trigger] neighbors[i])),
{
    lemma_neighbor_mask_expanded(neighbors);
    if neighbor_mask(neighbors) == 15 {
        assert(neighbor_counts(neighbors[0]) && neighbor_counts(neighbors[1]) && neighbor_counts(
            neighbors[2],
        ) && neighbor_counts(neighbors[3]));
    }
    if neighbor_mask(neighbors) == 0 {
        assert(!neighbor_counts(neighbors[0]) && !neighbor_counts(neighbors[1])
            && !neighbor_counts(neighbors[2]) && !neighbor_counts(neighbors[3]));
    }
}

/// One cell of the world: its kind, the cached kinds of its four neighbours,
/// its animation frame, its solidity, and the mask derived from the neighbours.
#[derive(Debug)]
pub struct Tile {
    id: TileId,
    neighbors: [Option<TileId>; 4],
    frame: u32,
    solid: bool,
    neighbor_bf: u32,
}

impl View for Tile {
    type V = TileView;

    closed spec fn view(&self) -> TileView {
        TileView {
            id: self.id,
            neighbors: self.neighbors@,
            frame: self.frame,
            solid: self.solid,
            neighbor_bf: self.neighbor_bf,
        }
    }
}

impl Tile {
    /// The stored mask is the mask of the stored neighbours, a four-bit value.
    #[verifier::type_invariant]
    spec fn mask_is_cached(self) -> bool {
        &&& self.neighbor_bf == neighbor_mask(self.neighbors@)
        &&& self.neighbor_bf <= 15
    }

    /// A `Nothing` tile on frame 0, not solid, with empty air recorded on all
    /// four sides and the mask 0 that belongs to it.
    pub fn new() -> (t: Tile)
        ensures
            t@ == TileView::fresh(),
            t@.mask_is_current(),
    {
        let air = Some(TileId::Nothing);
        let neighbors: [Option<TileId>; 4] = [air, air, air, air];
        assert(neighbors@ =~= Seq::new(4, |i: int| Some(TileId::Nothing)));
        proof {
            lemma_neighbor_mask_expanded(neighbors@);
        }
        Tile { id: TileId::Nothing, neighbors, frame: 0, solid: false, neighbor_bf: 0 }
    }

    /// Changes the kind; the cached neighbours and the mask stay.
    pub fn set_id(&mut self, id: TileId)
        ensures
            final(self)@ == (TileView { id, ..old(self)@ }),
            final(self)@.mask_is_current(),
    {
        proof {
            use_type_invariant(&*self);
        }
        self.id = id;
    }

    /// Changes the column of the sheet that shows the tile.
    pub fn set_frame(&mut self, frame: u32)
        ensures
            final(self)@ == (TileView { frame, ..old(self)@ }),
            final(self)@.mask_is_current(),
    {
        proof {
            use_type_invariant(&*self);
        }
        self.frame = frame;
    }

    /// Changes whether the tile blocks movement.
    pub fn set_solid(&mut self, solid: bool)
        ensures
            final(self)@ == (TileView { solid, ..old(self)@ }),
            final(self)@.mask_is_current(),
    {
        proof {
            use_type_invariant(&*self);
        }
        self.solid = solid;
    }

    /// Replaces the cached neighbours and recomputes the mask from them.
    pub fn set_neighbors(&mut self, neighbors: [Option<TileId>; 4])
        ensures
            final(self)@ == old(self)@.with_neighbors(neighbors@),
            final(self)@.mask_is_current(),
            final(self)@.neighbor_bf <= 15,
    {
        proof {
            use_type_invariant(&*self);
            lemma_neighbor_mask_expanded(neighbors@);
        }
        let mut mask: u32 = 0;
        let mut weight: u32 = 1;
        let mut i: usize = 0;
        while i < 4
            invariant
                i <= 4,
                weight == direction_weight(i as int),
                mask == mask_below(neighbors@, i as int),
                mask < weight,
            decreases 4 - i,
        {
            let counts = match neighbors[i] {
                Some(n) => n != TileId::Nothing,
                None => true,
            };
            if counts {
                mask = mask + weight;
            }
            weight = weight * 2;
            i = i + 1;
        }
        *self = Tile {
            id: self.id,
            neighbors,
            frame: self.frame,
            solid: self.solid,
            neighbor_bf: mask,
        };
    }

    /// The kind of the tile.
    pub fn get_id(&self) -> (id: TileId)
        ensures
            id == self@.id,
    {
        self.id
    }

    /// The column of the sheet that shows the tile.
    pub fn get_frame(&self) -> (frame: u32)
        ensures
            frame == self@.frame,
    {
        self.frame
    }

    /// Whether the tile blocks movement.
    pub fn is_solid(&self) -> (solid: bool)
        ensures
            solid == self@.solid,
    {
        self.solid
    }

    /// The stored mask: the mask of the cached neighbours, a value in `0..=15`.
    pub fn get_neighbor_bf(&self) -> (mask: u32)
        ensures
            mask == self@.neighbor_bf,
            mask == neighbor_mask(self@.neighbors),
            mask <= 15,
    {
        proof {
            use_type_invariant(self);
        }
        self.neighbor_bf
    }

    /// The cached neighbours, in the order west, south, east, north.
    pub fn get_neighbors(&self) -> (neighbors: [Option<TileId>; 4])
        ensures
            neighbors@ == self@.neighbors,
            self@.mask_is_current(),
    {
        proof {
            use_type_invariant(self);
        }
        self.neighbors
    }

    /// The cell of this tile's sprite sheet that shows it: column `frame`, row
    /// `neighbor_bf`, one tile wide and high.
    pub fn atlas_cell(&self) -> (clip: Rect)
        requires
            self@.frame * TILE_SIZE <= i32::MAX,
        ensures
            clip == atlas_cell_of(self@),
    {
        proof {
            use_type_invariant(self);
        }
        Rect::new(
            (TILE_SIZE * self.frame) as i32,
            (TILE_SIZE * self.neighbor_bf) as i32,
            TILE_SIZE,
            TILE_SIZE,
        )
    }

    /// The copy that draws this tile into `dest`: from its cell of the sheet
    /// of its kind, scaled to `dest`. A kind without a loaded sheet, which
    /// `Nothing` always is, draws nothing, whatever its frame. The frame's
    /// pixel offset must fit a rectangle only where a sheet is there to copy
    /// from.
    pub fn render(&self, atlases: &TileAtlases, dest: Rect) -> (r: Option<Blit>)
        requires
            self@.id != TileId::Nothing && atlases@[self@.id].loaded ==> self@.frame * TILE_SIZE
                <= i32::MAX,
        ensures
            r == tile_blit(self@, atlases@[self@.id], dest),
            self@.id == TileId::Nothing ==> r is None,
            !atlases@[self@.id].loaded ==> r is None,
    {
        let tile_sprite = atlases.get(self.id);
        if !tile_sprite.is_loaded() {
            return None;
        }
        let clip = self.atlas_cell();
        tile_sprite.render(dest.x, dest.y, Some(Size { w: dest.w, h: dest.h }), Some(clip))
    }
}

/// The cell of the sheet that shows tile `t`.
pub open spec fn atlas_cell_of(t: TileView) -> Rect {
    Rect {
        x: (TILE_SIZE * t.frame) as i32,
        y: (TILE_SIZE * t.neighbor_bf) as i32,
        w: TILE_SIZE,
        h: TILE_SIZE,
    }
}

/// The copy that draws tile `t` with the sheet `sheet` into `dest`.
pub open spec fn tile_blit(t: TileView, sheet: SpriteView, dest: Rect) -> Option<Blit> {
    if sheet.loaded {
        Some(Blit { clip: Some(atlas_cell_of(t)), dest })
    } else {
        None
    }
}

/// The sprite sheet of every kind. The sheet of `Nothing` is always empty.
#[derive(Clone, Copy, Debug)]
pub struct TileAtlases {
    nothing: Sprite,
    dirt: Sprite,
    stone: Sprite,
    grass: Sprite,
}

impl View for TileAtlases {
    type V = Map<TileId, SpriteView>;

    closed spec fn view(&self) -> Map<TileId, SpriteView> {
        Map::total(
            |id: TileId|
                match id {
                    TileId::Nothing => self.nothing@,
                    TileId::Dirt => self.dirt@,
                    TileId::Stone => self.stone@,
                    TileId::Grass => self.grass@,
                },
        )
    }
}

/// The sheet that a load which ended in `decoded` leaves: an image of the
/// decoded size, or the empty sprite after a failure.
pub open spec fn loaded_sheet(decoded: Result<Size, String>) -> SpriteView {
    SpriteView::empty().after_load(decoded)
}

impl TileAtlases {
    #[verifier::type_invariant]
    spec fn nothing_is_empty(self) -> bool {
        self.nothing@ == SpriteView::empty()
    }

    /// The total map that gives every kind the empty sprite.
    pub fn new() -> (a: TileAtlases)
        ensures
            a@ == Map::total(|id: TileId| SpriteView::empty()),
            forall|id: TileId| a@.dom().contains(id) && #[trigger] a@[id] == SpriteView::empty(),
    {
        let a = TileAtlases {
            nothing: Sprite::new(),
            dirt: Sprite::new(),
            stone: Sprite::new(),
            grass: Sprite::new(),
        };
        assert(a@ =~= Map::total(|id: TileId| SpriteView::empty()));
        a
    }

    /// The sheet of kind `id`; that of `Nothing` is the empty sprite.
    pub fn get(&self, id: TileId) -> (s: &Sprite)
        ensures
            self@.dom().contains(id),
            s@ == self@[id],
            id == TileId::Nothing ==> s@ == SpriteView::empty(),
    {
        proof {
            use_type_invariant(self);
        }
        match id {
            TileId::Nothing => &self.nothing,
            TileId::Dirt => &self.dirt,
            TileId::Stone => &self.stone,
            TileId::Grass => &self.grass,
        }
    }
}

/// Builds the sheets of all kinds from how loading each file ended, one
/// result for each kind but `Nothing`, whose sheet stays empty. A sheet that
/// failed to load is left empty and fails nothing.
pub fn load_tile_atlases(
    dirt: Result<Size, String>,
    stone: Result<Size, String>,
    grass: Result<Size, String>,
) -> (r: Result<TileAtlases, String>)
    ensures
        r is Ok,
        r matches Ok(a) ==> {
            &&& a@[TileId::Nothing] == SpriteView::empty()
            &&& a@[TileId::Dirt] == loaded_sheet(dirt)
            &&& a@[TileId::Stone] == loaded_sheet(stone)
            &&& a@[TileId::Grass] == loaded_sheet(grass)
        },
{
    let mut dirt_sheet = Sprite::new();
    let mut stone_sheet = Sprite::new();
    let mut grass_sheet = Sprite::new();
    let _ = dirt_sheet.load_from_file(dirt);
    let _ = stone_sheet.load_from_file(stone);
    let _ = grass_sheet.load_from_file(grass);
    Ok(TileAtlases { nothing: Sprite::new(), dirt: dirt_sheet, stone: stone_sheet, grass: grass_sheet })
}

} // verus!
