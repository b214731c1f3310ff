//! Properties that hold across the operations of the library.
use vstd::prelude::*;
use crate::action::{legal, target, walk_ticks, ActionType};
use crate::geometry::{dir8_spec, step, ChunkPos, Direction, TilePos};
use crate::human::Freshness;
use crate::item::Item;
use crate::map::{generated_tile, is_diggable, tile_text, Chunk, Terrain};
use crate::turn::{
    advance, cleared, dug, first_capacity, is_due, lemma_first_capacity, lemma_first_capacity_same,
    resolved, resolved_in_order, tick_step, ActionResult,
};
use crate::world::{loaded_chunk, World};

verus! {

/// The clock after `n` steps from `now` towards a pending action due at
/// `finish`.
pub open spec fn clock_after(now: u128, finish: u128, n: nat) -> u128
    decreases n,
{
    if n == 0 {
        now
    } else {
        advance(clock_after(now, finish, (n - 1) as nat), finish)
    }
}

/// Starting at or before `finish`, the clock takes one tick per step, stays
/// below `finish` for the first `finish - now` steps, then stands at
/// `finish`. A walk, due once the clock is at `finish`, therefore takes its
/// step when the clock first reaches `finish`, and not before.
pub proof fn lemma_clock_reaches_finish(now: u128, finish: u128, n: nat)
    requires
        now <= finish,
    ensures
        clock_after(now, finish, n) == if n < finish - now {
            now + n
        } else {
            finish as int
        },
    decreases n,
{
    if n > 0 {
        lemma_clock_reaches_finish(now, finish, (n - 1) as nat);
    }
}

/// A larger speed penalty never makes a walk shorter.
pub proof fn lemma_walk_ticks_monotonic(len: int, k1: int, k2: int)
    requires
        0 <= len,
        k1 <= k2,
    ensures
        walk_ticks(len, k1) <= walk_ticks(len, k2),
{
    assert(len * k1 <= len * k2) by (nonlinear_arith)
        requires
            0 <= len,
            k1 <= k2,
    ;
    vstd::arithmetic::div_mod::lemma_div_is_ordered(len * k1 + 50, len * k2 + 50, 100);
}

/// Digging turns the tile into a pit and keeps its items. Plain diggable
/// ground spawns nothing: every other tile is as it was. A grave, when one
/// of its eight neighbours has capacity, yields one corpse and one
/// gravestone on the first such neighbour in scan order, both with the
/// buried character's identity, and leaves every other tile as it was.
pub proof fn lemma_dig_outcome(w0: World, w1: World, p: TilePos)
    requires
        dug(w0, w1, p),
        is_diggable(w0.tile_at(p).terrain),
    ensures
        w1.tile_at(p).terrain is Pit,
        w1.tile_at(p).items == w0.tile_at(p).items,
        !(w0.tile_at(p).terrain is Grave) ==> forall|q: TilePos|
            q != p ==> #[trigger] w1.tile_at(q) == w0.tile_at(q),
        w0.tile_at(p).terrain matches Terrain::Grave(g) ==> first_capacity(w0, p, 0) matches Some(
            k,
        ) ==> {
            let n = step(p, dir8_spec(k));
            let before = w0.tile_at(n).items;
            let after = w1.tile_at(n).items;
            &&& 0 <= k < 8
            &&& after == before.push(after[before.len() as int]).push(after[before.len() + 1int])
            &&& after[before.len() as int] matches Item::Corpse(c) && c.character@ == g.character@
                && c.body.freshness == Freshness::Skeletal
            &&& after[before.len() + 1int] matches Item::Gravestone(s) && s.data.character@
                == g.character@ && s.data.death_year == g.death_year
            &&& forall|q: TilePos| q != p && q != n ==> #[trigger] w1.tile_at(q) == w0.tile_at(q)
        },
{
    lemma_first_capacity(w0, p, 0);
    if let Terrain::Grave(g) = w0.tile_at(p).terrain {
        if let Some(k) = first_capacity(w0, p, 0) {
            let n = step(p, dir8_spec(k));
            let before = w0.tile_at(n).items;
            let after = w1.tile_at(n).items;
            assert(after =~= before.push(after[before.len() as int]).push(after[before.len() + 1int]));
        }
    }
}

/// Digging seen at the level of a tick, in a world with one actor whose dig
/// is due: the target becomes a pit and keeps its items, and the actor's
/// slot empties. Plain ground, or a grave with no neighbour that has
/// capacity, spawns nothing anywhere. A grave with such a neighbour yields
/// one corpse and one gravestone of the buried character on the first of
/// them in scan order, and no other tile changes.
pub proof fn lemma_tick_dig_outcome(w0: World, w1: World, events: Seq<ActionResult>, d: Direction)
    requires
        resolved_in_order(w0, w1, events),
        w1.meta.seed == w0.meta.seed,
        w0.units@.len() == 1,
        is_due(w0.units@[0], w0.meta.current_tick),
        w0.units@[0].action.unwrap().typ == ActionType::Digging(d),
        is_diggable(w0.tile_at(target(w0.units@[0].pos, d)).terrain),
    ensures
        ({
            let t = target(w0.units@[0].pos, d);
            &&& w1.tile_at(t).terrain is Pit
            &&& w1.tile_at(t).items == w0.tile_at(t).items
            &&& w1.units@[0].action is None
            &&& (!(w0.tile_at(t).terrain is Grave) || first_capacity(w0, t, 0) is None) ==> forall|q: TilePos|
                q != t ==> #[trigger] w1.tile_at(q) == w0.tile_at(q)
            &&& w0.tile_at(t).terrain matches Terrain::Grave(g) ==> first_capacity(w0, t, 0) matches Some(
                k,
            ) ==> {
                let n = step(t, dir8_spec(k));
                let before = w0.tile_at(n).items;
                let after = w1.tile_at(n).items;
                &&& 0 <= k < 8
                &&& after == before.push(after[before.len() as int]).push(after[before.len() + 1int])
                &&& after[before.len() as int] matches Item::Corpse(c) && c.character@ == g.character@
                    && c.body.freshness == Freshness::Skeletal
                &&& after[before.len() + 1int] matches Item::Gravestone(s) && s.data.character@
                    == g.character@ && s.data.death_year == g.death_year
                &&& forall|q: TilePos| q != t && q != n ==> #[trigger] w1.tile_at(q) == w0.tile_at(q)
            }
        }),
{
    let now = w0.meta.current_tick;
    let (ws, es) = choose|ws: Seq<World>, es: Seq<Seq<ActionResult>>|
        {
            &&& ws.len() == w0.units@.len() + 1
            &&& es.len() == w0.units@.len()
            &&& ws[0] == w0
            &&& forall|k: int| 0 <= k < es.len() ==> #[trigger] tick_step(ws[k], ws[k + 1], k, now, es[k])
            &&& w1.units == ws.last().units
            &&& w1.chunks == ws.last().chunks
            &&& events == es.flatten()
        };
    assert(tick_step(ws[0], ws[1], 0, now, es[0]));
    let w = choose|w: World| #[trigger] cleared(w0, w, 0) && resolved(w, ws[1], 0, ActionType::Digging(d), es[0]);
    let t = target(w0.units@[0].pos, d);
    assert(w.units@[0].pos == w0.units@[0].pos);
    assert forall|q: TilePos| #[trigger] w.tile_at(q) == w0.tile_at(q) by {}
    lemma_first_capacity_same(w0, w, t, 0);
    lemma_dig_outcome(w, ws[1], t);
    assert(ws.last() == ws[1]);
    assert forall|q: TilePos| #[trigger] w1.tile_at(q) == ws[1].tile_at(q) by {}
    assert(w1.units@[0] == w.units@[0]);
}

/// A target without text cannot be read: the action is refused when it is
/// requested, so it never reaches resolution.
pub proof fn lemma_reading_needs_text(w: World, owner: int, d: Direction)
    requires
        0 <= owner < w.units@.len(),
        tile_text(w.tile_at(target(w.units@[owner].pos, d))) is None,
    ensures
        !legal(ActionType::Reading(d), owner, w),
{
}

/// Loading the same chunk twice, with nothing evicted in between, gives
/// the same tiles both times.
pub proof fn lemma_loads_agree(w0: World, w1: World, w2: World, c: ChunkPos, r1: Chunk, r2: Chunk)
    requires
        loaded_chunk(w0, w1, c, r1),
        loaded_chunk(w1, w2, c, r2),
    ensures
        forall|k: int| 0 <= k < 1024 ==> #[trigger] r1.tiles@[k]@ == r2.tiles@[k]@,
{
}

/// Generation depends on the seed and the position alone: two chunks
/// generated for the same seed and position hold the same tiles.
pub proof fn lemma_generation_pure(a: Chunk, b: Chunk, seed: u64, c: ChunkPos)
    requires
        a.is_generated(seed, c),
        b.is_generated(seed, c),
    ensures
        forall|k: int| 0 <= k < 1024 ==> #[trigger] a.tiles@[k]@ == b.tiles@[k]@,
        forall|k: int| 0 <= k < 1024 ==> #[trigger] a.tiles@[k]@ == generated_tile(seed, crate::geometry::tile_in_chunk(c, k)),
{
}

} // verus!
