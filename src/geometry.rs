//! Directions, tile coordinates and their split into chunks.
use vstd::prelude::*;

verus! {

/// Side length of a chunk, in tiles.
pub const CHUNK_SIZE: i32 = 32;

/// Number of tiles in one chunk.
pub const CHUNK_TILES: usize = 1024;

/// One of the eight compass directions, or the actor's own tile.
#[derive(Debug, Clone, Copy, PartialEq, Eq, Structural)]
pub enum Direction {
    Here,
    North,
    NorthEast,
    East,
    SouthEast,
    South,
    SouthWest,
    West,
    NorthWest,
}

/// Horizontal offset of a direction (east is positive).
pub open spec fn dx(d: Direction) -> int {
    match d {
        Direction::NorthEast | Direction::East | Direction::SouthEast => 1,
        Direction::NorthWest | Direction::West | Direction::SouthWest => -1,
        _ => 0,
    }
}

/// Vertical offset of a direction (south is positive).
pub open spec fn dy(d: Direction) -> int {
    match d {
        Direction::SouthEast | Direction::South | Direction::SouthWest => 1,
        Direction::NorthEast | Direction::North | Direction::NorthWest => -1,
        _ => 0,
    }
}

/// The eight neighbours in the fixed scan order: clockwise from north.
pub open spec fn dir8_spec(k: int) -> Direction {
    if k == 0 {
        Direction::North
    } else if k == 1 {
        Direction::NorthEast
    } else if k == 2 {
        Direction::East
    } else if k == 3 {
        Direction::SouthEast
    } else if k == 4 {
        Direction::South
    } else if k == 5 {
        Direction::SouthWest
    } else if k == 6 {
        Direction::West
    } else {
        Direction::NorthWest
    }
}

impl Direction {
    pub fn dx(&self) -> (r: i32)
        ensures
            r == dx(*self),
    {
        match self {
            Direction::NorthEast | Direction::East | Direction::SouthEast => 1,
            Direction::NorthWest | Direction::West | Direction::SouthWest => -1,
            _ => 0,
        }
    }

    pub fn dy(&self) -> (r: i32)
        ensures
            r == dy(*self),
    {
        match self {
            Direction::SouthEast | Direction::South | Direction::SouthWest => 1,
            Direction::NorthEast | Direction::North | Direction::NorthWest => -1,
            _ => 0,
        }
    }

    /// The `k`-th neighbour direction in the fixed scan order.
    pub fn dir8(k: usize) -> (r: Direction)
        requires
            k < 8,
        ensures
            r == dir8_spec(k as int),
    {
        if k == 0 {
            Direction::North
        } else if k == 1 {
            Direction::NorthEast
        } else if k == 2 {
            Direction::East
        } else if k == 3 {
            Direction::SouthEast
        } else if k == 4 {
            Direction::South
        } else if k == 5 {
            Direction::SouthWest
        } else if k == 6 {
            Direction::West
        } else {
            Direction::NorthWest
        }
    }
}

/// A coordinate that leaves the `i32` range re-enters on the other side:
/// the map is a torus of 2^32 tiles per side.
pub open spec fn wrap(v: int) -> i32 {
    if v > i32::MAX {
        (v - 0x1_0000_0000) as i32
    } else if v < i32::MIN {
        (v + 0x1_0000_0000) as i32
    } else {
        v as i32
    }
}

fn wrapping_step(v: i32, d: i32) -> (r: i32)
    requires
        -1 <= d <= 1,
    ensures
        r == wrap(v + d),
{
    if d == 1 && v == i32::MAX {
        i32::MIN
    } else if d == -1 && v == i32::MIN {
        i32::MAX
    } else {
        v + d
    }
}

/// Position of a tile in the global coordinate space.
#[derive(Debug, Clone, Copy, PartialEq, Eq, Structural)]
pub struct TilePos {
    pub x: i32,
    pub y: i32,
}

/// Position of a chunk: one unit covers a square of `CHUNK_SIZE` tiles.
#[derive(Debug, Clone, Copy, PartialEq, Eq, Structural)]
pub struct ChunkPos {
    pub x: i32,
    pub y: i32,
}

/// The tile one step from `p` in direction `d`.
pub open spec fn step(p: TilePos, d: Direction) -> TilePos {
    TilePos { x: wrap(p.x + dx(d)), y: wrap(p.y + dy(d)) }
}

/// The chunk that holds tile `p` (floor division).
pub open spec fn chunk_of(p: TilePos) -> ChunkPos {
    ChunkPos { x: (p.x / 32) as i32, y: (p.y / 32) as i32 }
}

/// Index of tile `p` inside its chunk: row-major over the local offset.
pub open spec fn local_index(p: TilePos) -> int {
    (p.y % 32) * 32 + (p.x % 32)
}

/// The tile at index `k` of chunk `c`.
pub open spec fn tile_in_chunk(c: ChunkPos, k: int) -> TilePos {
    TilePos { x: (c.x * 32 + k % 32) as i32, y: (c.y * 32 + k / 32) as i32 }
}

impl ChunkPos {
    /// A chunk whose tiles all have `i32` coordinates.
    pub open spec fn valid(self) -> bool {
        -0x400_0000 <= self.x < 0x400_0000 && -0x400_0000 <= self.y < 0x400_0000
    }
}

pub proof fn lemma_split(p: TilePos)
    ensures
        chunk_of(p).valid(),
        0 <= local_index(p) < 1024,
        chunk_of(p).x == p.x / 32,
        chunk_of(p).y == p.y / 32,
        tile_in_chunk(chunk_of(p), local_index(p)) == p,
{
    assert(0 <= p.x % 32 < 32 && p.x == (p.x / 32) * 32 + p.x % 32) by {
        vstd::arithmetic::div_mod::lemma_fundamental_div_mod(p.x as int, 32);
    }
    assert(0 <= p.y % 32 < 32 && p.y == (p.y / 32) * 32 + p.y % 32) by {
        vstd::arithmetic::div_mod::lemma_fundamental_div_mod(p.y as int, 32);
    }
    let k = local_index(p);
    assert(k % 32 == p.x % 32 && k / 32 == p.y % 32) by {
        vstd::arithmetic::div_mod::lemma_fundamental_div_mod_converse(
            k,
            32,
            (p.y % 32) as int,
            (p.x % 32) as int,
        );
    }
}

pub proof fn lemma_tile_in_chunk(c: ChunkPos, k: int)
    requires
        c.valid(),
        0 <= k < 1024,
    ensures
        chunk_of(tile_in_chunk(c, k)) == c,
        local_index(tile_in_chunk(c, k)) == k,
{
    let t = tile_in_chunk(c, k);
    assert(0 <= k % 32 < 32 && k == (k / 32) * 32 + k % 32) by {
        vstd::arithmetic::div_mod::lemma_fundamental_div_mod(k, 32);
    }
    assert(t.x / 32 == c.x && t.x % 32 == k % 32) by {
        vstd::arithmetic::div_mod::lemma_fundamental_div_mod_converse(
            c.x * 32 + k % 32,
            32,
            c.x as int,
            k % 32,
        );
    }
    assert(t.y / 32 == c.y && t.y % 32 == k / 32) by {
        vstd::arithmetic::div_mod::lemma_fundamental_div_mod_converse(
            c.y * 32 + k / 32,
            32,
            c.y as int,
            k / 32,
        );
    }
}

/// Tiles with the same chunk and local index are the same tile.
pub proof fn lemma_split_injective(p: TilePos, q: TilePos)
    requires
        chunk_of(p) == chunk_of(q),
        local_index(p) == local_index(q),
    ensures
        p == q,
{
    lemma_split(p);
    lemma_split(q);
}

impl TilePos {
    pub fn new(x: i32, y: i32) -> (r: TilePos)
        ensures
            r == (TilePos { x, y }),
    {
        TilePos { x, y }
    }

    /// The neighbouring tile in direction `d`.
    pub fn step(&self, d: Direction) -> (r: TilePos)
        ensures
            r == step(*self, d),
    {
        TilePos { x: wrapping_step(self.x, d.dx()), y: wrapping_step(self.y, d.dy()) }
    }

    /// Splits the position into its chunk and the index inside that chunk.
    pub fn chunk_and_index(&self) -> (r: (ChunkPos, usize))
        ensures
            r.0 == chunk_of(*self),
            r.1 == local_index(*self),
            r.0.valid(),
            r.1 < CHUNK_TILES,
    {
        proof {
            lemma_split(*self);
        }
        let ux: u64 = (self.x as i64 + 0x8000_0000) as u64;
        let uy: u64 = (self.y as i64 + 0x8000_0000) as u64;
        let qx = ux / 32;
        let rx = ux % 32;
        let qy = uy / 32;
        let ry = uy % 32;
        proof {
            vstd::arithmetic::div_mod::lemma_fundamental_div_mod(ux as int, 32);
            vstd::arithmetic::div_mod::lemma_fundamental_div_mod(uy as int, 32);
            vstd::arithmetic::div_mod::lemma_fundamental_div_mod_converse(
                self.x as int,
                32,
                qx - 0x400_0000,
                rx as int,
            );
            vstd::arithmetic::div_mod::lemma_fundamental_div_mod_converse(
                self.y as int,
                32,
                qy - 0x400_0000,
                ry as int,
            );
        }
        let c = ChunkPos { x: (qx as i64 - 0x400_0000) as i32, y: (qy as i64 - 0x400_0000) as i32 };
        (c, (ry * 32 + rx) as usize)
    }
}

} // verus!
