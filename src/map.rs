//! Terrain, tiles, and chunks of tiles generated from the world seed.
use vstd::prelude::*;
use crate::dice::{seeded_draw, seeded_word};
use crate::geometry::{tile_in_chunk, ChunkPos, TilePos, CHUNK_TILES};
use crate::item::{inscription, item_text, GraveData, Item};

verus! {

/// What covers the ground of a tile.
#[derive(Debug)]
pub enum Terrain {
    Dirt,
    Grass,
    Boulder,
    Pit,
    Grave(GraveData),
}

/// Whether a terrain can be crossed, and how many ticks a step onto it takes.
#[derive(Debug, Clone, Copy, PartialEq, Eq, Structural)]
pub enum Passage {
    Passable(u32),
    Unpassable,
}

pub open spec fn passage(t: Terrain) -> Passage {
    match t {
        Terrain::Dirt => Passage::Passable(10),
        Terrain::Grass => Passage::Passable(11),
        _ => Passage::Unpassable,
    }
}

pub open spec fn is_passable(t: Terrain) -> bool {
    passage(t) is Passable
}

/// Terrain that a shovel can turn into a pit. A pit is not diggable.
pub open spec fn is_diggable(t: Terrain) -> bool {
    match t {
        Terrain::Dirt | Terrain::Grass | Terrain::Grave(_) => true,
        _ => false,
    }
}

pub open spec fn terrain_name(t: Terrain) -> Seq<char> {
    match t {
        Terrain::Dirt => "dirt"@,
        Terrain::Grass => "grass"@,
        Terrain::Boulder => "boulder"@,
        Terrain::Pit => "pit"@,
        Terrain::Grave(_) => "grave"@,
    }
}

/// The text a terrain carries, if it can be read.
pub open spec fn terrain_text(t: Terrain) -> Option<Seq<char>> {
    match t {
        Terrain::Grave(d) => Some(inscription(d.character@, d.death_year)),
        _ => None,
    }
}

impl Terrain {
    pub fn passage(&self) -> (r: Passage)
        ensures
            r == passage(*self),
    {
        match self {
            Terrain::Dirt => Passage::Passable(10),
            Terrain::Grass => Passage::Passable(11),
            _ => Passage::Unpassable,
        }
    }

    pub fn is_passable(&self) -> (r: bool)
        ensures
            r == is_passable(*self),
    {
        matches!(self.passage(), Passage::Passable(_))
    }

    pub fn is_diggable(&self) -> (r: bool)
        ensures
            r == is_diggable(*self),
    {
        match self {
            Terrain::Dirt | Terrain::Grass | Terrain::Grave(_) => true,
            _ => false,
        }
    }

    pub fn name(&self) -> (r: &str)
        ensures
            r@ == terrain_name(*self),
    {
        match self {
            Terrain::Dirt => "dirt",
            Terrain::Grass => "grass",
            Terrain::Boulder => "boulder",
            Terrain::Pit => "pit",
            Terrain::Grave(_) => "grave",
        }
    }
}

/// Terrain, the items stacked on it (the last one on top), at one position.
/// Who stands on a tile is read from the world's actor registry, which is
/// the one record of positions.
#[derive(Debug)]
pub struct Tile {
    pub terrain: Terrain,
    pub items: Vec<Item>,
}

/// The contents of a tile, with its items as a sequence.
pub struct TileView {
    pub terrain: Terrain,
    pub items: Seq<Item>,
}

impl View for Tile {
    type V = TileView;

    open spec fn view(&self) -> TileView {
        TileView { terrain: self.terrain, items: self.items@ }
    }
}

/// Index of the first item at or after `i` that carries text.
pub open spec fn first_readable(items: Seq<Item>, i: int) -> Option<int>
    decreases items.len() - i,
{
    if i < 0 || i >= items.len() {
        None
    } else if item_text(items[i]).is_some() {
        Some(i)
    } else {
        first_readable(items, i + 1)
    }
}

/// Index of the first corpse at or after `i`.
pub open spec fn first_corpse(items: Seq<Item>, i: int) -> Option<int>
    decreases items.len() - i,
{
    if i < 0 || i >= items.len() {
        None
    } else if items[i] is Corpse {
        Some(i)
    } else {
        first_corpse(items, i + 1)
    }
}

/// The readable text of a tile: its terrain's, else that of its first
/// readable item.
pub open spec fn tile_text(t: TileView) -> Option<Seq<char>> {
    match terrain_text(t.terrain) {
        Some(s) => Some(s),
        None => match first_readable(t.items, 0) {
            Some(i) => item_text(t.items[i]),
            None => None,
        },
    }
}

/// The seed of the draw that decides a generated tile.
pub open spec fn tile_seed(seed: u64, p: TilePos) -> u64 {
    seed ^ (((p.x as u32 as u64) << 32u64) | (p.y as u32 as u64))
}

/// Terrain chosen by a draw: 70% dirt, 20% grass, 10% boulders.
pub open spec fn terrain_of_word(w: u64) -> Terrain {
    if w % 100 < 70 {
        Terrain::Dirt
    } else if w % 100 < 90 {
        Terrain::Grass
    } else {
        Terrain::Boulder
    }
}

/// The tile that generation puts at `p` in a world with this seed.
pub open spec fn generated_tile(seed: u64, p: TilePos) -> TileView {
    TileView { terrain: terrain_of_word(seeded_word(tile_seed(seed, p))), items: Seq::empty() }
}

impl Tile {
    /// The tile that generation puts at `p` in a world with this seed.
    pub fn generate(seed: u64, p: TilePos) -> (r: Tile)
        ensures
            r@ == generated_tile(seed, p),
    {
        let s = seed ^ (((p.x as u32 as u64) << 32u64) | (p.y as u32 as u64));
        let w = seeded_draw(s);
        let terrain = if w % 100 < 70 {
            Terrain::Dirt
        } else if w % 100 < 90 {
            Terrain::Grass
        } else {
            Terrain::Boulder
        };
        Tile { terrain, items: Vec::new() }
    }

    fn first_readable_from(&self, i: usize) -> (r: Option<usize>)
        requires
            i <= self.items@.len(),
        ensures
            match r {
                Some(k) => first_readable(self.items@, i as int) == Some(k as int),
                None => first_readable(self.items@, i as int) is None,
            },
        decreases self.items@.len() - i,
    {
        if i >= self.items.len() {
            None
        } else if self.items[i].is_readable() {
            Some(i)
        } else {
            self.first_readable_from(i + 1)
        }
    }

    /// Index of the first corpse on the tile, if any.
    pub fn first_corpse_from(&self, i: usize) -> (r: Option<usize>)
        requires
            i <= self.items@.len(),
        ensures
            match r {
                Some(k) => first_corpse(self.items@, i as int) == Some(k as int),
                None => first_corpse(self.items@, i as int) is None,
            },
        decreases self.items@.len() - i,
    {
        if i >= self.items.len() {
            None
        } else if self.items[i].is_corpse() {
            Some(i)
        } else {
            self.first_corpse_from(i + 1)
        }
    }

    pub fn is_readable(&self) -> (r: bool)
        ensures
            r == tile_text(self@).is_some(),
    {
        proof {
            lemma_first_readable_has_text(self.items@, 0);
        }
        match &self.terrain {
            Terrain::Grave(_) => true,
            _ => self.first_readable_from(0).is_some(),
        }
    }

    /// The readable text of the tile; empty where there is none.
    pub fn read(&self) -> (r: String)
        ensures
            tile_text(self@).is_some() ==> r@ == tile_text(self@).unwrap(),
            tile_text(self@).is_none() ==> r@.len() == 0,
    {
        proof {
            lemma_first_readable_has_text(self.items@, 0);
        }
        match &self.terrain {
            Terrain::Grave(d) => {
                d.inscription()
            },
            _ => match self.first_readable_from(0) {
                Some(i) => self.items[i].read(),
                None => String::new(),
            },
        }
    }
}

pub proof fn lemma_first_readable_has_text(items: Seq<Item>, i: int)
    ensures
        first_readable(items, i) matches Some(k) ==> i <= k < items.len() && item_text(
            items[k],
        ).is_some(),
    decreases items.len() - i,
{
    if 0 <= i < items.len() && item_text(items[i]).is_none() {
        lemma_first_readable_has_text(items, i + 1);
    }
}

pub proof fn lemma_first_corpse_is_corpse(items: Seq<Item>, i: int)
    requires
        0 <= i,
    ensures
        first_corpse(items, i) matches Some(k) ==> i <= k < items.len() && items[k] is Corpse,
        first_corpse(items, i) is None ==> forall|j: int|
            i <= j < items.len() && 0 <= j ==> !(#[trigger] items[j] is Corpse),
    decreases items.len() - i,
{
    if 0 <= i < items.len() && !(items[i] is Corpse) {
        lemma_first_corpse_is_corpse(items, i + 1);
    }
}

/// A square of `CHUNK_TILES` tiles, stored row by row.
#[derive(Debug)]
pub struct Chunk {
    pub pos: ChunkPos,
    pub tiles: Vec<Tile>,
}

impl Chunk {
    /// The chunk as generation makes it: a function of the seed and the
    /// position alone.
    pub open spec fn is_generated(&self, seed: u64, pos: ChunkPos) -> bool {
        &&& self.pos == pos
        &&& self.tiles@.len() == 1024
        &&& forall|k: int|
            0 <= k < 1024 ==> #[trigger] self.tiles@[k]@ == generated_tile(
                seed,
                tile_in_chunk(pos, k),
            )
    }

    pub fn generate(seed: u64, pos: ChunkPos) -> (r: Chunk)
        requires
            pos.valid(),
        ensures
            r.is_generated(seed, pos),
    {
        let mut tiles: Vec<Tile> = Vec::new();
        let mut k: usize = 0;
        while k < CHUNK_TILES
            invariant
                pos.valid(),
                k <= 1024,
                tiles@.len() == k,
                forall|j: int|
                    0 <= j < k ==> #[trigger] tiles@[j]@ == generated_tile(
                        seed,
                        tile_in_chunk(pos, j),
                    ),
            decreases 1024 - k,
        {
            let p = TilePos { x: pos.x * 32 + (k % 32) as i32, y: pos.y * 32 + (k / 32) as i32 };
            assert(p == tile_in_chunk(pos, k as int));
            tiles.push(Tile::generate(seed, p));
            k = k + 1;
        }
        Chunk { pos, tiles }
    }
}

} // verus!
