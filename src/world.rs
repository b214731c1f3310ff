//! The world: its clock, its actors, and the chunk cache over the map.
use vstd::prelude::*;
use crate::avatar::Avatar;
use crate::geometry::{chunk_of, local_index, lemma_split, lemma_split_injective, lemma_tile_in_chunk, tile_in_chunk, ChunkPos, TilePos};
use crate::map::{generated_tile, Chunk, Tile, TileView};

verus! {

/// What a save record keeps of a world besides its actors.
#[derive(Debug)]
pub struct WorldMeta {
    pub name: String,
    pub seed: u64,
    /// The clock, in whole ticks: every duration is a whole number of
    /// ticks, and the clock only ever moves towards a finish tick.
    pub current_tick: u128,
}

/// Index of the first chunk at or after `i` that covers `c`.
pub open spec fn find_from(chunks: Seq<Chunk>, c: ChunkPos, i: int) -> Option<int>
    decreases chunks.len() - i,
{
    if i < 0 || i >= chunks.len() {
        None
    } else if chunks[i].pos == c {
        Some(i)
    } else {
        find_from(chunks, c, i + 1)
    }
}

pub proof fn lemma_find_from_bounds(chunks: Seq<Chunk>, c: ChunkPos, i: int)
    ensures
        find_from(chunks, c, i) matches Some(k) ==> i <= k < chunks.len() && chunks[k].pos == c,
    decreases chunks.len() - i,
{
    if 0 <= i < chunks.len() && chunks[i].pos != c {
        lemma_find_from_bounds(chunks, c, i + 1);
    }
}

/// Replacing a chunk by one at the same position finds the same chunks.
pub proof fn lemma_find_from_update(chunks: Seq<Chunk>, k: int, nc: Chunk, c: ChunkPos, i: int)
    requires
        0 <= k < chunks.len(),
        nc.pos == chunks[k].pos,
    ensures
        find_from(chunks.update(k, nc), c, i) == find_from(chunks, c, i),
    decreases chunks.len() - i,
{
    if 0 <= i < chunks.len() && chunks.update(k, nc)[i].pos != c {
        lemma_find_from_update(chunks, k, nc, c, i + 1);
    }
}

/// Appending a chunk finds it only where nothing before it was found.
pub proof fn lemma_find_from_push(chunks: Seq<Chunk>, nc: Chunk, c: ChunkPos, i: int)
    requires
        0 <= i <= chunks.len(),
    ensures
        find_from(chunks.push(nc), c, i) == (match find_from(chunks, c, i) {
            Some(k) => Some(k),
            None => if nc.pos == c {
                Some(chunks.len() as int)
            } else {
                None
            },
        }),
    decreases chunks.len() - i,
{
    let pushed = chunks.push(nc);
    if i < chunks.len() {
        assert(pushed[i] == chunks[i]);
        if chunks[i].pos != c {
            lemma_find_from_push(chunks, nc, c, i + 1);
        }
    } else {
        assert(pushed[i] == nc);
        assert(find_from(chunks, c, i) is None);
        if nc.pos != c {
            assert(find_from(pushed, c, i + 1) is None);
        }
    }
}

/// The generated chunks, in the order in which they were first needed.
/// Lookups take the first chunk at a position, and a chunk is only added
/// where none is found.
pub struct ChunkMap {
    chunks: Vec<Chunk>,
}

impl ChunkMap {
    /// Every cached chunk holds a full square of tiles.
    pub closed spec fn wf(&self) -> bool {
        forall|k: int| 0 <= k < self.chunks@.len() ==> #[trigger] self.chunks@[k].tiles@.len() == 1024
    }

    /// Whether the chunk that holds `p` has been generated.
    pub closed spec fn is_loaded(&self, p: TilePos) -> bool {
        find_from(self.chunks@, chunk_of(p), 0) is Some
    }

    /// The tile at `p`: the cached one, or the one that generation from
    /// `seed` would produce there.
    pub closed spec fn tile_at(&self, seed: u64, p: TilePos) -> TileView {
        match find_from(self.chunks@, chunk_of(p), 0) {
            Some(k) => self.chunks@[k].tiles@[local_index(p)]@,
            None => generated_tile(seed, p),
        }
    }

    pub fn new() -> (r: ChunkMap)
        ensures
            r.wf(),
            forall|p: TilePos| !r.is_loaded(p),
            forall|seed: u64, p: TilePos| #[trigger] r.tile_at(seed, p) == generated_tile(seed, p),
    {
        ChunkMap { chunks: Vec::new() }
    }

    fn find_chunk(&self, c: ChunkPos) -> (r: Option<usize>)
        ensures
            match r {
                Some(k) => find_from(self.chunks@, c, 0) == Some(k as int),
                None => find_from(self.chunks@, c, 0) is None,
            },
    {
        let mut i: usize = 0;
        while i < self.chunks.len()
            invariant
                i <= self.chunks@.len(),
                find_from(self.chunks@, c, 0) == find_from(self.chunks@, c, i as int),
            decreases self.chunks@.len() - i,
        {
            if self.chunks[i].pos == c {
                return Some(i);
            }
            i = i + 1;
        }
        None
    }

    /// Index of the cached chunk at `c`, generating it first if needed.
    fn chunk_index(&mut self, seed: u64, c: ChunkPos) -> (r: usize)
        requires
            old(self).wf(),
            c.valid(),
        ensures
            final(self).wf(),
            find_from(final(self).chunks@, c, 0) == Some(r as int),
            forall|p: TilePos| #[trigger] final(self).tile_at(seed, p) == old(self).tile_at(seed, p),
            forall|p: TilePos|
                (old(self).is_loaded(p) || chunk_of(p) == c) ==> #[trigger] final(self).is_loaded(p),
            forall|p: TilePos|
                #[trigger] final(self).is_loaded(p) ==> old(self).is_loaded(p) || chunk_of(p) == c,
    {
        match self.find_chunk(c) {
            Some(k) => k,
            None => {
                let chunk = Chunk::generate(seed, c);
                let ghost before = self.chunks@;
                self.chunks.push(chunk);
                proof {
                    assert forall|q: ChunkPos| #[trigger] find_from(self.chunks@, q, 0) == (match find_from(before, q, 0) {
                        Some(k) => Some(k),
                        None => if chunk.pos == q {
                            Some(before.len() as int)
                        } else {
                            None
                        },
                    }) by {
                        lemma_find_from_push(before, chunk, q, 0);
                    }
                    assert forall|p: TilePos| #[trigger] self.tile_at(seed, p) == old(self).tile_at(seed, p) by {
                        lemma_find_from_bounds(before, chunk_of(p), 0);
                        if chunk_of(p) == c && find_from(before, chunk_of(p), 0) is None {
                            lemma_split(p);
                            assert(self.chunks@[before.len() as int] == chunk);
                            assert(chunk.tiles@[local_index(p)]@ == generated_tile(seed, tile_in_chunk(c, local_index(p))));
                        }
                    }
                }
                self.chunks.len() - 1
            },
        }
    }

    /// The tile at `p`, if its chunk has been generated.
    pub fn get_tile(&self, seed: u64, p: TilePos) -> (r: Option<&Tile>)
        requires
            self.wf(),
        ensures
            r is Some <==> self.is_loaded(p),
            r matches Some(t) ==> t@ == self.tile_at(seed, p),
    {
        let (c, j) = p.chunk_and_index();
        match self.find_chunk(c) {
            Some(k) => {
                proof {
                    lemma_find_from_bounds(self.chunks@, c, 0);
                }
                Some(&self.chunks[k].tiles[j])
            },
            None => None,
        }
    }

    /// The chunk at `c`, generated from `seed` and cached on first use.
    pub fn load_chunk(&mut self, seed: u64, c: ChunkPos) -> (r: &Chunk)
        requires
            old(self).wf(),
            c.valid(),
        ensures
            final(self).wf(),
            forall|p: TilePos| #[trigger] final(self).tile_at(seed, p) == old(self).tile_at(seed, p),
            forall|p: TilePos|
                (old(self).is_loaded(p) || chunk_of(p) == c) ==> #[trigger] final(self).is_loaded(p),
            forall|p: TilePos|
                #[trigger] final(self).is_loaded(p) ==> old(self).is_loaded(p) || chunk_of(p) == c,
            r.pos == c,
            r.tiles@.len() == 1024,
            forall|k: int| 0 <= k < 1024 ==> #[trigger] r.tiles@[k]@ == old(self).tile_at(seed, tile_in_chunk(c, k)),
    {
        let k = self.chunk_index(seed, c);
        proof {
            lemma_find_from_bounds(self.chunks@, c, 0);
            assert forall|k2: int| 0 <= k2 < 1024 implies #[trigger] self.chunks@[k as int].tiles@[k2]@ == old(self).tile_at(seed, tile_in_chunk(c, k2)) by {
                lemma_tile_in_chunk(c, k2);
                assert(self.tile_at(seed, tile_in_chunk(c, k2)) == old(self).tile_at(seed, tile_in_chunk(c, k2)));
            }
        }
        &self.chunks[k]
    }

    /// The tile at `p`, generating its chunk from `seed` first if needed.
    pub fn load_tile(&mut self, seed: u64, p: TilePos) -> (r: &Tile)
        requires
            old(self).wf(),
        ensures
            final(self).wf(),
            forall|q: TilePos| #[trigger] final(self).tile_at(seed, q) == old(self).tile_at(seed, q),
            forall|q: TilePos|
                (old(self).is_loaded(q) || chunk_of(q) == chunk_of(p)) ==> #[trigger] final(self).is_loaded(q),
            forall|q: TilePos|
                #[trigger] final(self).is_loaded(q) ==> old(self).is_loaded(q) || chunk_of(q) == chunk_of(p),
            r@ == old(self).tile_at(seed, p),
    {
        let (c, j) = p.chunk_and_index();
        let k = self.chunk_index(seed, c);
        proof {
            lemma_find_from_bounds(self.chunks@, c, 0);
            assert(self.tile_at(seed, p) == old(self).tile_at(seed, p));
        }
        &self.chunks[k].tiles[j]
    }

    /// The tile at `p` for editing, generating its chunk first if needed.
    pub fn load_tile_mut(&mut self, seed: u64, p: TilePos) -> (r: &mut Tile)
        requires
            old(self).wf(),
        ensures
            final(self).wf(),
            forall|q: TilePos| #[trigger] final(self).tile_at(seed, q) == if q == p {
                final(r)@
            } else {
                old(self).tile_at(seed, q)
            },
            forall|q: TilePos|
                (old(self).is_loaded(q) || chunk_of(q) == chunk_of(p)) ==> #[trigger] final(self).is_loaded(q),
            forall|q: TilePos|
                #[trigger] final(self).is_loaded(q) ==> old(self).is_loaded(q) || chunk_of(q) == chunk_of(p),
            (*r)@ == old(self).tile_at(seed, p),
    {
        let (c, j) = p.chunk_and_index();
        let k = self.chunk_index(seed, c);
        proof {
            lemma_find_from_bounds(self.chunks@, c, 0);
            assert(self.tile_at(seed, p) == old(self).tile_at(seed, p));
        }
        proof {
            lemma_tile_edit(*self, seed, p, k as int);
        }
        &mut self.chunks[k].tiles[j]
    }
}

/// Editing the one tile at `p` in place leaves every other tile as it was.
proof fn lemma_tile_edit(m: ChunkMap, seed: u64, p: TilePos, k: int)
    requires
        m.wf(),
        find_from(m.chunks@, chunk_of(p), 0) == Some(k),
    ensures
        forall|m2: ChunkMap, q: TilePos|
            (m2.chunks@ == m.chunks@.update(k, m2.chunks@[k]) && m2.chunks@[k].pos == m.chunks@[k].pos
                && m2.chunks@[k].tiles@ == m.chunks@[k].tiles@.update(
                local_index(p),
                m2.chunks@[k].tiles@[local_index(p)],
            )) ==> #[trigger] m2.tile_at(seed, q) == if q == p {
                m2.chunks@[k].tiles@[local_index(p)]@
            } else {
                m.tile_at(seed, q)
            },
        forall|m2: ChunkMap, q: TilePos|
            (m2.chunks@ == m.chunks@.update(k, m2.chunks@[k]) && m2.chunks@[k].pos == m.chunks@[k].pos
                && m2.chunks@[k].tiles@ == m.chunks@[k].tiles@.update(
                local_index(p),
                m2.chunks@[k].tiles@[local_index(p)],
            )) ==> (#[trigger] m2.is_loaded(q) <==> m.is_loaded(q)),
        forall|m2: ChunkMap|
            (m2.chunks@ == m.chunks@.update(k, m2.chunks@[k]) && m2.chunks@[k].tiles@ == m.chunks@[k].tiles@.update(
                local_index(p),
                m2.chunks@[k].tiles@[local_index(p)],
            )) ==> #[trigger] m2.wf(),
{
    lemma_find_from_bounds(m.chunks@, chunk_of(p), 0);
    lemma_split(p);
    assert forall|m2: ChunkMap, q: TilePos|
        (m2.chunks@ == m.chunks@.update(k, m2.chunks@[k]) && m2.chunks@[k].pos == m.chunks@[k].pos
            && m2.chunks@[k].tiles@ == m.chunks@[k].tiles@.update(
            local_index(p),
            m2.chunks@[k].tiles@[local_index(p)],
        )) implies #[trigger] m2.tile_at(seed, q) == if q == p {
            m2.chunks@[k].tiles@[local_index(p)]@
        } else {
            m.tile_at(seed, q)
        } by {
        lemma_find_from_update(m.chunks@, k, m2.chunks@[k], chunk_of(q), 0);
        lemma_find_from_bounds(m.chunks@, chunk_of(q), 0);
        lemma_split(q);
        if q != p && chunk_of(q) == chunk_of(p) && local_index(q) == local_index(p) {
            lemma_split_injective(p, q);
        }
    }
    assert forall|m2: ChunkMap, q: TilePos|
        (m2.chunks@ == m.chunks@.update(k, m2.chunks@[k]) && m2.chunks@[k].pos == m.chunks@[k].pos
            && m2.chunks@[k].tiles@ == m.chunks@[k].tiles@.update(
            local_index(p),
            m2.chunks@[k].tiles@[local_index(p)],
        )) implies (#[trigger] m2.is_loaded(q) <==> m.is_loaded(q)) by {
        lemma_find_from_update(m.chunks@, k, m2.chunks@[k], chunk_of(q), 0);
    }
    assert forall|m2: ChunkMap|
        (m2.chunks@ == m.chunks@.update(k, m2.chunks@[k]) && m2.chunks@[k].tiles@ == m.chunks@[k].tiles@.update(
            local_index(p),
            m2.chunks@[k].tiles@[local_index(p)],
        )) implies #[trigger] m2.wf() by {
        assert forall|i: int| 0 <= i < m2.chunks@.len() implies #[trigger] m2.chunks@[i].tiles@.len() == 1024 by {
            if i != k {
                assert(m2.chunks@[i] == m.chunks@[i]);
            }
        }
    }
}

/// What loading chunk `c` does: `w1` is `w0` with `c` cached, and `r`
/// holds exactly the tiles that `w0` has there.
pub open spec fn loaded_chunk(w0: World, w1: World, c: ChunkPos, r: Chunk) -> bool {
    &&& w1.wf()
    &&& w1.meta == w0.meta
    &&& w1.units == w0.units
    &&& forall|p: TilePos| #[trigger] w1.tile_at(p) == w0.tile_at(p)
    &&& forall|p: TilePos| (w0.is_loaded(p) || chunk_of(p) == c) ==> #[trigger] w1.is_loaded(p)
    &&& forall|p: TilePos| #[trigger] w1.is_loaded(p) ==> w0.is_loaded(p) || chunk_of(p) == c
    &&& r.pos == c
    &&& r.tiles@.len() == 1024
    &&& forall|k: int| 0 <= k < 1024 ==> #[trigger] r.tiles@[k]@ == w0.tile_at(tile_in_chunk(c, k))
}

pub struct World {
    pub meta: WorldMeta,
    /// The actor registry; the first actor is the player.
    pub units: Vec<Avatar>,
    pub chunks: ChunkMap,
}

impl World {
    /// Every cached chunk is whole.
    #[verifier::inline]
    pub open spec fn wf(&self) -> bool {
        self.chunks.wf()
    }

    /// Whether the chunk that holds `p` has been generated this session.
    #[verifier::inline]
    pub open spec fn is_loaded(&self, p: TilePos) -> bool {
        self.chunks.is_loaded(p)
    }

    /// The tile at `p`, whether or not it has been generated yet.
    #[verifier::inline]
    pub open spec fn tile_at(&self, p: TilePos) -> TileView {
        self.chunks.tile_at(self.meta.seed, p)
    }

    /// A world with no chunk generated yet and the player as its only actor.
    pub fn new(meta: WorldMeta, player: Avatar) -> (r: World)
        ensures
            r.wf(),
            r.meta == meta,
            r.units@ == seq![player],
            forall|p: TilePos| !r.is_loaded(p),
            forall|p: TilePos| #[trigger] r.tile_at(p) == generated_tile(meta.seed, p),
    {
        let mut units = Vec::new();
        units.push(player);
        World { meta, units, chunks: ChunkMap::new() }
    }

    /// The tile at `p`, if its chunk has been generated.
    pub fn get_tile(&self, p: TilePos) -> (r: Option<&Tile>)
        requires
            self.wf(),
        ensures
            r is Some <==> self.is_loaded(p),
            r matches Some(t) ==> t@ == self.tile_at(p),
    {
        self.chunks.get_tile(self.meta.seed, p)
    }

    /// The chunk at `c`: the cached one, else generated from the seed and
    /// cached. Loading never changes what any tile holds.
    pub fn load_chunk(&mut self, c: ChunkPos) -> (r: &Chunk)
        requires
            old(self).wf(),
            c.valid(),
        ensures
            loaded_chunk(*old(self), *final(self), c, *r),
    {
        self.chunks.load_chunk(self.meta.seed, c)
    }

    /// The tile at `p`, generating its chunk first if needed.
    pub fn load_tile(&mut self, p: TilePos) -> (r: &Tile)
        requires
            old(self).wf(),
        ensures
            final(self).wf(),
            final(self).meta == old(self).meta,
            final(self).units == old(self).units,
            forall|q: TilePos| #[trigger] final(self).tile_at(q) == old(self).tile_at(q),
            forall|q: TilePos|
                (old(self).is_loaded(q) || chunk_of(q) == chunk_of(p)) ==> #[trigger] final(self).is_loaded(q),
            forall|q: TilePos|
                #[trigger] final(self).is_loaded(q) ==> old(self).is_loaded(q) || chunk_of(q) == chunk_of(p),
            r@ == old(self).tile_at(p),
    {
        self.chunks.load_tile(self.meta.seed, p)
    }

    /// The tile at `p` for editing, generating its chunk first if needed.
    pub fn load_tile_mut(&mut self, p: TilePos) -> (r: &mut Tile)
        requires
            old(self).wf(),
        ensures
            final(self).wf(),
            final(self).meta == old(self).meta,
            final(self).units == old(self).units,
            forall|q: TilePos| #[trigger] final(self).tile_at(q) == if q == p {
                final(r)@
            } else {
                old(self).tile_at(q)
            },
            forall|q: TilePos|
                (old(self).is_loaded(q) || chunk_of(q) == chunk_of(p)) ==> #[trigger] final(self).is_loaded(q),
            forall|q: TilePos|
                #[trigger] final(self).is_loaded(q) ==> old(self).is_loaded(q) || chunk_of(q) == chunk_of(p),
            (*r)@ == old(self).tile_at(p),
    {
        self.chunks.load_tile_mut(self.meta.seed, p)
    }

    /// The player's actor.
    pub fn player(&self) -> (r: &Avatar)
        requires
            self.units@.len() > 0,
        ensures
            *r == self.units@[0],
    {
        &self.units[0]
    }

    /// The player's actor, for editing.
    pub fn player_mut(&mut self) -> (r: &mut Avatar)
        requires
            old(self).units@.len() > 0,
        ensures
            *r == old(self).units@[0],
            final(self).units@ == old(self).units@.update(0, *final(r)),
            final(self).meta == old(self).meta,
            final(self).chunks == old(self).chunks,
    {
        &mut self.units[0]
    }
}

} // verus!
