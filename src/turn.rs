//! Resolving due actions and advancing the clock.
use vstd::prelude::*;
use crate::action::{duration, legal, refusal, target, Action, ActionType};
use crate::avatar::{Avatar, Soul};
use crate::brain::{wander_direction, ZombieBrain};
use crate::geometry::{dir8_spec, dx, dy, step, Direction, TilePos};
use crate::human::{Body, Freshness};
use crate::item::{Corpse, Gravestone, Item};
use crate::map::{first_corpse, is_passable, lemma_first_corpse_is_corpse, tile_text, Terrain, TileView};
use crate::world::World;

verus! {

/// What resolving an action reports to the player.
#[derive(Debug)]
pub enum ActionResult {
    LogMessage(String),
}

/// What does not change when an action resolves: the meta data, whole
/// chunks, and every tile that was generated.
pub open spec fn world_frame(w0: World, w1: World) -> bool {
    &&& w1.wf()
    &&& w1.meta == w0.meta
    &&& forall|p: TilePos| w0.is_loaded(p) ==> #[trigger] w1.is_loaded(p)
}

/// Every tile but those at `a` and `b` is as it was.
pub open spec fn tiles_kept_except(w0: World, w1: World, a: TilePos, b: TilePos) -> bool {
    forall|q: TilePos| q != a && q != b ==> #[trigger] w1.tile_at(q) == w0.tile_at(q)
}

/// Actor `a1` is `a0` holding other items.
pub open spec fn same_but_wield(a0: Avatar, a1: Avatar) -> bool {
    &&& a1.character == a0.character
    &&& a1.body == a0.body
    &&& a1.pos == a0.pos
    &&& a1.action == a0.action
    &&& a1.stamina == a0.stamina
    &&& a1.soul == a0.soul
}

/// Only actor `i` changed, and `a` is what it became.
pub open spec fn units_but(w0: World, w1: World, i: int, a: Avatar) -> bool {
    w1.units@ == w0.units@.update(i, a)
}

/// The actor moved one step in direction `d`; nothing else changed.
pub open spec fn walked(w0: World, w1: World, i: int, d: Direction) -> bool {
    &&& world_frame(w0, w1)
    &&& w1.units@ == w0.units@.update(i, Avatar { pos: step(w0.units@[i].pos, d), ..w0.units@[i] })
    &&& forall|q: TilePos| #[trigger] w1.tile_at(q) == w0.tile_at(q)
}

/// The top item of the target tile moved into the actor's hands, if there
/// was one.
pub open spec fn picked_up(w0: World, w1: World, i: int, d: Direction) -> bool {
    let t = target(w0.units@[i].pos, d);
    let items = w0.tile_at(t).items;
    &&& world_frame(w0, w1)
    &&& tiles_kept_except(w0, w1, t, t)
    &&& w1.units@.len() == w0.units@.len()
    &&& forall|j: int| 0 <= j < w0.units@.len() && j != i ==> #[trigger] w1.units@[j] == w0.units@[j]
    &&& same_but_wield(w0.units@[i], w1.units@[i])
    &&& if items.len() > 0 {
        &&& w1.tile_at(t) == TileView { terrain: w0.tile_at(t).terrain, items: items.drop_last() }
        &&& w1.units@[i].wield@ == w0.units@[i].wield@.push(items.last())
    } else {
        &&& w1.tile_at(t) == w0.tile_at(t)
        &&& w1.units@[i].wield@ == w0.units@[i].wield@
    }
}

/// The held item at `idx` moved onto the top of the target tile, if there
/// was one.
pub open spec fn put_down(w0: World, w1: World, i: int, idx: int, d: Direction) -> bool {
    let t = target(w0.units@[i].pos, d);
    let wield = w0.units@[i].wield@;
    &&& world_frame(w0, w1)
    &&& tiles_kept_except(w0, w1, t, t)
    &&& w1.units@.len() == w0.units@.len()
    &&& forall|j: int| 0 <= j < w0.units@.len() && j != i ==> #[trigger] w1.units@[j] == w0.units@[j]
    &&& same_but_wield(w0.units@[i], w1.units@[i])
    &&& if 0 <= idx < wield.len() {
        &&& w1.tile_at(t) == TileView {
            terrain: w0.tile_at(t).terrain,
            items: w0.tile_at(t).items.push(wield[idx]),
        }
        &&& w1.units@[i].wield@ == wield.remove(idx)
    } else {
        &&& w1.tile_at(t) == w0.tile_at(t)
        &&& w1.units@[i].wield@ == wield
    }
}

/// Index, from `k` on in the fixed scan order, of the first neighbour of `p`
/// whose terrain can hold items.
pub open spec fn first_capacity(w: World, p: TilePos, k: int) -> Option<int>
    decreases 8 - k,
{
    if k < 0 || k >= 8 {
        None
    } else if is_passable(w.tile_at(step(p, dir8_spec(k))).terrain) {
        Some(k)
    } else {
        first_capacity(w, p, k + 1)
    }
}

/// The tile at `p` became a pit. A grave there gave up its dead: a corpse of
/// the buried character, at the most decayed stage, and a gravestone with
/// their identity and death year, both laid on the first neighbour with
/// capacity. Nothing else changed.
pub open spec fn dug(w0: World, w1: World, p: TilePos) -> bool {
    let old_tile = w0.tile_at(p);
    &&& world_frame(w0, w1)
    &&& w1.units == w0.units
    &&& w1.tile_at(p) == TileView { terrain: Terrain::Pit, items: old_tile.items }
    &&& match (old_tile.terrain, first_capacity(w0, p, 0)) {
        (Terrain::Grave(g), Some(k)) => {
            let n = step(p, dir8_spec(k));
            let before = w0.tile_at(n).items;
            let after = w1.tile_at(n).items;
            &&& tiles_kept_except(w0, w1, p, n)
            &&& w1.tile_at(n).terrain == w0.tile_at(n).terrain
            &&& after.len() == before.len() + 2
            &&& after.subrange(0, before.len() as int) == before
            &&& after[before.len() as int] matches Item::Corpse(c) && c.character == g.character
                && c.body.freshness == Freshness::Skeletal && c.body.wear@.len() == 0
            &&& after[before.len() + 1int] matches Item::Gravestone(s) && s.data.character@
                == g.character@ && s.data.death_year == g.death_year
        },
        _ => tiles_kept_except(w0, w1, p, p),
    }
}

/// The first corpse on the target tile rose as a new actor driven by a
/// wandering brain, standing on that tile.
pub open spec fn raised(w0: World, w1: World, i: int, d: Direction) -> bool {
    let t = target(w0.units@[i].pos, d);
    let items = w0.tile_at(t).items;
    &&& world_frame(w0, w1)
    &&& tiles_kept_except(w0, w1, t, t)
    &&& match first_corpse(items, 0) {
        Some(k) => {
            &&& w1.tile_at(t) == TileView { terrain: w0.tile_at(t).terrain, items: items.remove(k) }
            &&& w1.units@.len() == w0.units@.len() + 1
            &&& w1.units@.subrange(0, w0.units@.len() as int) == w0.units@
            &&& items[k] matches Item::Corpse(c) && {
                let z = w1.units@[w0.units@.len() as int];
                &&& z.character == c.character
                &&& z.body == c.body
                &&& z.pos == t
                &&& z.action is None
                &&& z.wield@.len() == 0
                &&& z.soul matches Soul::Zombie(b) && b.action == ActionType::SkippingTime
            }
        },
        None => {
            &&& w1.tile_at(t) == w0.tile_at(t)
            &&& w1.units == w0.units
        },
    }
}

/// The message that reading a text gives.
pub open spec fn reading_message(text: Seq<char>) -> Seq<char> {
    "You read on gravestone: "@ + text
}

/// `w1` is `w0` with the action slot of actor `i` emptied.
pub open spec fn cleared(w0: World, w1: World, i: int) -> bool {
    &&& w1.meta == w0.meta
    &&& w1.chunks == w0.chunks
    &&& w1.units@ == w0.units@.update(i, Avatar { action: None, ..w0.units@[i] })
}

/// The effect of an action of kind `typ` by actor `i`, taking `w0` to `w1`
/// and reporting `events`.
pub open spec fn resolved(w0: World, w1: World, i: int, typ: ActionType, events: Seq<ActionResult>) -> bool {
    match typ {
        ActionType::SkippingTime => w1 == w0 && events.len() == 0,
        ActionType::Walking(d) => walked(w0, w1, i, d) && events.len() == 0,
        ActionType::Wielding(d) => picked_up(w0, w1, i, d) && events.len() == 0,
        ActionType::Dropping(idx, d) => put_down(w0, w1, i, idx as int, d) && events.len() == 0,
        ActionType::Digging(d) => dug(w0, w1, target(w0.units@[i].pos, d)) && events.len() == 0,
        ActionType::Reading(d) => {
            &&& world_frame(w0, w1)
            &&& w1.units == w0.units
            &&& forall|q: TilePos| #[trigger] w1.tile_at(q) == w0.tile_at(q)
            &&& match tile_text(w0.tile_at(target(w0.units@[i].pos, d))) {
                Some(s) => events.len() == 1 && (events[0] matches ActionResult::LogMessage(m) && m@
                    == reading_message(s)),
                None => events.len() == 0,
            }
        },
        ActionType::Animate(d) => raised(w0, w1, i, d) && events.len() == 0,
    }
}

/// Step `k` of a tick at `now`, from `w0` to `w1`: actor `k`'s action, if
/// it is due, is resolved with `events`; otherwise nothing happens.
pub open spec fn tick_step(w0: World, w1: World, k: int, now: u128, events: Seq<ActionResult>) -> bool {
    if is_due(w0.units@[k], now) {
        exists|w: World| #[trigger] cleared(w0, w, k) && resolved(w, w1, k, w0.units@[k].action.unwrap().typ, events)
    } else {
        w1 == w0 && events.len() == 0
    }
}

/// The resolving half of a tick, from `w0` to `w1`: the actors of `w0` take
/// their steps in registry order through the worlds `ws`, reporting the
/// events `es`; `w1` has the actors and chunks of the last of them.
pub open spec fn resolved_in_order(w0: World, w1: World, events: Seq<ActionResult>) -> bool {
    exists|ws: Seq<World>, es: Seq<Seq<ActionResult>>|
        {
            &&& ws.len() == w0.units@.len() + 1
            &&& es.len() == w0.units@.len()
            &&& ws[0] == w0
            &&& forall|k: int|
                0 <= k < es.len() ==> #[trigger] tick_step(ws[k], ws[k + 1], k, w0.meta.current_tick, es[k])
            &&& w1.units == ws.last().units
            &&& w1.chunks == ws.last().chunks
            &&& events == es.flatten()
        }
}

/// Whether the action of `a` is due at tick `now`.
pub open spec fn is_due(a: Avatar, now: u128) -> bool {
    a.action matches Some(x) && x.finish <= now
}

/// The clock after one step: it moves by `min(1, finish - now)` towards the
/// player's pending action, which is one tick for integer ticks, and stands
/// still when the player has none.
pub open spec fn next_tick(w: World) -> u128 {
    let now = w.meta.current_tick;
    if w.units@.len() > 0 && w.units@[0].action is Some {
        advance(now, w.units@[0].action.unwrap().finish)
    } else {
        now
    }
}

/// One step of the clock towards `finish`.
pub open spec fn advance(now: u128, finish: u128) -> u128 {
    if finish > now {
        (now + 1) as u128
    } else {
        now
    }
}

/// The action that actor `i` is committed to when `typ`, requested in `w`,
/// is legal there.
pub open spec fn commitment(w: World, i: int, typ: ActionType) -> Action {
    Action { owner: i as usize, typ, finish: (w.meta.current_tick + duration(typ, i, w)) as u128 }
}

/// A non-player actor that was idle planned a walk in the direction that
/// `roll` picks, and committed to it where it is legal.
pub open spec fn planned(w0: World, w1: World, i: int, roll: u32) -> bool {
    let typ = ActionType::Walking(wander_direction(roll));
    let a = w0.units@[i];
    &&& roll < 5
    &&& w1.meta == w0.meta
    &&& w1.chunks == w0.chunks
    &&& w1.units@.len() == w0.units@.len()
    &&& forall|j: int| 0 <= j < w0.units@.len() && j != i ==> #[trigger] w1.units@[j] == w0.units@[j]
    &&& w1.units@[i].soul matches Soul::Zombie(b) && b.action == typ
    &&& w1.units@[i].action == if legal(typ, i, w0) {
        Some(commitment(w0, i, typ))
    } else {
        None
    }
    &&& w1.units@[i].character == a.character
    &&& w1.units@[i].body == a.body
    &&& w1.units@[i].pos == a.pos
    &&& w1.units@[i].wield == a.wield
    &&& w1.units@[i].stamina == a.stamina
}

pub proof fn lemma_first_capacity(w: World, p: TilePos, k: int)
    ensures
        first_capacity(w, p, k) matches Some(j) ==> k <= j < 8 && is_passable(
            w.tile_at(step(p, dir8_spec(j))).terrain,
        ),
    decreases 8 - k,
{
    if 0 <= k < 8 && !is_passable(w.tile_at(step(p, dir8_spec(k))).terrain) {
        lemma_first_capacity(w, p, k + 1);
    }
}

/// The scan looks at tiles only.
pub proof fn lemma_first_capacity_same(w0: World, w1: World, p: TilePos, k: int)
    requires
        forall|q: TilePos| #[trigger] w1.tile_at(q) == w0.tile_at(q),
    ensures
        first_capacity(w1, p, k) == first_capacity(w0, p, k),
    decreases 8 - k,
{
    if 0 <= k < 8 {
        assert(w1.tile_at(step(p, dir8_spec(k))) == w0.tile_at(step(p, dir8_spec(k))));
        lemma_first_capacity_same(w0, w1, p, k + 1);
    }
}

pub proof fn lemma_step_moves(p: TilePos, d: Direction)
    requires
        d != Direction::Here,
    ensures
        step(p, d) != p,
{
    assert(dx(d) != 0 || dy(d) != 0);
}

impl World {
    /// Moves actor `i` one step in direction `d`.
    pub fn walk(&mut self, i: usize, d: Direction)
        requires
            old(self).wf(),
            i < old(self).units@.len(),
        ensures
            walked(*old(self), *final(self), i as int, d),
    {
        let p = self.units[i].pos.step(d);
        self.units[i].pos = p;
    }

    /// Moves the top item of the tile in direction `d` into the hands of
    /// actor `i`.
    pub fn pick_up(&mut self, i: usize, d: Direction)
        requires
            old(self).wf(),
            i < old(self).units@.len(),
        ensures
            picked_up(*old(self), *final(self), i as int, d),
    {
        let t = self.units[i].pos.step(d);
        let tile = self.load_tile_mut(t);
        let top = tile.items.pop();
        match top {
            Some(item) => {
                self.units[i].wield.push(item);
            },
            None => {},
        }
    }

    /// Moves the item that actor `i` holds at `idx` onto the tile in
    /// direction `d`.
    pub fn put_down(&mut self, i: usize, idx: usize, d: Direction)
        requires
            old(self).wf(),
            i < old(self).units@.len(),
        ensures
            put_down(*old(self), *final(self), i as int, idx as int, d),
    {
        let t = self.units[i].pos.step(d);
        if idx < self.units[i].wield.len() {
            let item = self.units[i].wield.remove(idx);
            let tile = self.load_tile_mut(t);
            tile.items.push(item);
        }
    }
}

impl World {
    /// Index of the first neighbour of `p`, in the fixed scan order, whose
    /// terrain can hold items.
    fn find_capacity(&mut self, p: TilePos) -> (r: Option<usize>)
        requires
            old(self).wf(),
        ensures
            world_frame(*old(self), *final(self)),
            final(self).units == old(self).units,
            forall|q: TilePos| #[trigger] final(self).tile_at(q) == old(self).tile_at(q),
            match r {
                Some(k) => first_capacity(*old(self), p, 0) == Some(k as int),
                None => first_capacity(*old(self), p, 0) is None,
            },
    {
        let ghost w0 = *self;
        let mut k: usize = 0;
        while k < 8
            invariant
                k <= 8,
                w0 == *old(self),
                world_frame(w0, *self),
                self.units == w0.units,
                forall|q: TilePos| #[trigger] self.tile_at(q) == w0.tile_at(q),
                first_capacity(w0, p, 0) == first_capacity(w0, p, k as int),
            decreases 8 - k,
        {
            let n = p.step(Direction::dir8(k));
            if self.load_tile(n).terrain.is_passable() {
                return Some(k);
            }
            k = k + 1;
        }
        None
    }

    /// Turns the tile at `p` into a pit; a grave there gives up a corpse and
    /// a gravestone to the first neighbour with capacity.
    pub fn dig(&mut self, p: TilePos)
        requires
            old(self).wf(),
        ensures
            dug(*old(self), *final(self), p),
    {
        let ghost w0 = *self;
        let is_grave = matches!(self.load_tile(p).terrain, Terrain::Grave(..));
        let ghost wa = *self;
        proof {
            lemma_first_capacity_same(w0, wa, p, 0);
        }
        let spot = if is_grave {
            self.find_capacity(p)
        } else {
            None
        };
        proof {
            lemma_first_capacity(w0, p, 0);
        }
        let tile = self.load_tile_mut(p);
        let mut old_terrain = Terrain::Pit;
        std::mem::swap(&mut tile.terrain, &mut old_terrain);
        if let Terrain::Grave(data) = old_terrain {
            if let Some(k) = spot {
                let n = p.step(Direction::dir8(k));
                proof {
                    lemma_step_moves(p, dir8_spec(k as int));
                }
                let stone = Gravestone::new(data.clone());
                let corpse = Corpse { character: data.character, body: Body::human(Freshness::Skeletal) };
                let target = self.load_tile_mut(n);
                target.items.push(Item::Corpse(corpse));
                target.items.push(Item::Gravestone(stone));
                proof {
                    let before = w0.tile_at(n).items;
                    assert(self.tile_at(n).items.subrange(0, before.len() as int) =~= before);
                }
            }
        }
    }

    /// The message that reading the tile in direction `d` of actor `i`
    /// gives, if it carries text.
    pub fn read_message(&mut self, i: usize, d: Direction) -> (r: Option<String>)
        requires
            old(self).wf(),
            i < old(self).units@.len(),
        ensures
            world_frame(*old(self), *final(self)),
            final(self).units == old(self).units,
            forall|q: TilePos| #[trigger] final(self).tile_at(q) == old(self).tile_at(q),
            match tile_text(old(self).tile_at(target(old(self).units@[i as int].pos, d))) {
                Some(s) => r matches Some(m) && m@ == reading_message(s),
                None => r is None,
            },
    {
        let t = self.units[i].pos.step(d);
        let tile = self.load_tile(t);
        if tile.is_readable() {
            let s = String::from_str("You read on gravestone: ");
            Some(s.concat(tile.read().as_str()))
        } else {
            None
        }
    }

    /// Raises the first corpse on the tile in direction `d` of actor `i` as a
    /// new actor.
    pub fn animate(&mut self, i: usize, d: Direction)
        requires
            old(self).wf(),
            i < old(self).units@.len(),
        ensures
            raised(*old(self), *final(self), i as int, d),
    {
        let t = self.units[i].pos.step(d);
        let tile = self.load_tile_mut(t);
        match tile.first_corpse_from(0) {
            Some(k) => {
                proof {
                    lemma_first_corpse_is_corpse(tile.items@, 0);
                }
                let item = tile.items.remove(k);
                match item {
                    Item::Corpse(c) => {
                        self.units.push(Avatar::zombie(c.character, c.body, t));
                    },
                    _ => {
                        assert(false);
                    },
                }
                assert(self.units@.subrange(0, old(self).units@.len() as int) =~= old(self).units@);
            },
            None => {},
        }
    }
}

impl World {
    /// Resolves the action of actor `i`, if it has one: empties its slot,
    /// then applies the effect without checking legality again.
    pub fn resolve(&mut self, i: usize) -> (events: Vec<ActionResult>)
        requires
            old(self).wf(),
            i < old(self).units@.len(),
        ensures
            final(self).wf(),
            final(self).meta == old(self).meta,
            final(self).units@.len() >= old(self).units@.len(),
            forall|j: int|
                0 <= j < old(self).units@.len() && j != i ==> #[trigger] final(self).units@[j] == old(
                    self,
                ).units@[j],
            final(self).units@[i as int].action is None,
            match old(self).units@[i as int].action {
                Some(a) => {
                    &&& exists|w: World| #[trigger] cleared(*old(self), w, i as int) && resolved(w, *final(self), i as int, a.typ, events@)
                    &&& a.typ matches ActionType::Walking(d) ==> final(self).units@[i as int].pos == step(old(self).units@[i as int].pos, d)
                },
                None => *final(self) == *old(self) && events@.len() == 0,
            },
    {
        let action = self.units[i].action;
        match action {
            None => Vec::new(),
            Some(a) => {
                self.units[i].action = None;
                let ghost w = *self;
                assert(cleared(*old(self), w, i as int));
                let mut events: Vec<ActionResult> = Vec::new();
                match a.typ {
                    ActionType::SkippingTime => {},
                    ActionType::Walking(d) => self.walk(i, d),
                    ActionType::Wielding(d) => self.pick_up(i, d),
                    ActionType::Dropping(idx, d) => self.put_down(i, idx, d),
                    ActionType::Digging(d) => {
                        let t = self.units[i].pos.step(d);
                        self.dig(t);
                    },
                    ActionType::Reading(d) => {
                        if let Some(m) = self.read_message(i, d) {
                            events.push(ActionResult::LogMessage(m));
                        }
                    },
                    ActionType::Animate(d) => self.animate(i, d),
                }
                proof {
                    assert forall|j: int|
                        0 <= j < old(self).units@.len() && j != i implies #[trigger] self.units@[j] == old(self).units@[j] by {
                        assert(w.units@[j] == old(self).units@[j]);
                        if a.typ is Animate {
                            assert(self.units@.subrange(0, w.units@.len() as int)[j] == w.units@[j]);
                        }
                    }
                    if a.typ is Animate {
                        assert(self.units@.subrange(0, w.units@.len() as int)[i as int] == w.units@[i as int]);
                    }
                }
                events
            },
        }
    }

    /// One simulation step. First every actor whose action is due (its
    /// finish tick has been reached) has it resolved, in registry order.
    /// Then, if the player still has an action pending, the clock moves one
    /// tick towards it, never past its finish; with none, the clock stands.
    pub fn tick(&mut self) -> (events: Vec<ActionResult>)
        requires
            old(self).wf(),
        ensures
            final(self).wf(),
            final(self).meta.name == old(self).meta.name,
            final(self).meta.seed == old(self).meta.seed,
            final(self).meta.current_tick == next_tick(*old(self)),
            final(self).meta.current_tick >= old(self).meta.current_tick,
            (forall|j: int| 0 <= j < old(self).units@.len() ==> (#[trigger] old(self).units@[j]).action is None)
                ==> final(self).meta.current_tick == old(self).meta.current_tick,
            resolved_in_order(*old(self), *final(self), events@),
            final(self).units@.len() >= old(self).units@.len(),
            forall|j: int|
                0 <= j < old(self).units@.len() && !is_due(old(self).units@[j], old(self).meta.current_tick)
                    ==> #[trigger] final(self).units@[j] == old(self).units@[j],
            forall|j: int|
                0 <= j < old(self).units@.len() && is_due(old(self).units@[j], old(self).meta.current_tick)
                    ==> (#[trigger] final(self).units@[j]).action is None,
            forall|j: int|
                0 <= j < old(self).units@.len() && is_due(old(self).units@[j], old(self).meta.current_tick)
                    ==> (old(self).units@[j].action.unwrap().typ matches ActionType::Walking(d) ==> (
                    #[trigger] final(self).units@[j]).pos == step(old(self).units@[j].pos, d)),
    {
        let now = self.meta.current_tick;
        let n = self.units.len();
        let mut events: Vec<ActionResult> = Vec::new();
        let mut i: usize = 0;
        let ghost mut ws: Seq<World> = seq![*self];
        let ghost mut es: Seq<Seq<ActionResult>> = Seq::empty();
        while i < n
            invariant
                i <= n,
                ws.len() == i + 1,
                es.len() == i,
                ws[0] == *old(self),
                ws[i as int] == *self,
                forall|k: int| 0 <= k < i ==> #[trigger] tick_step(ws[k], ws[k + 1], k, now, es[k]),
                events@ == es.flatten(),
                n == old(self).units@.len(),
                now == old(self).meta.current_tick,
                self.wf(),
                self.meta == old(self).meta,
                self.units@.len() >= n,
                forall|j: int| i <= j < n ==> #[trigger] self.units@[j] == old(self).units@[j],
                forall|j: int|
                    0 <= j < i && !is_due(old(self).units@[j], now) ==> #[trigger] self.units@[j] == old(self).units@[j],
                forall|j: int|
                    0 <= j < i && is_due(old(self).units@[j], now) ==> (#[trigger] self.units@[j]).action is None,
                forall|j: int|
                    0 <= j < i && is_due(old(self).units@[j], now)
                        ==> (old(self).units@[j].action.unwrap().typ matches ActionType::Walking(d) ==> (
                        #[trigger] self.units@[j]).pos == step(old(self).units@[j].pos, d)),
            decreases n - i,
        {
            let due = match self.units[i].action {
                Some(a) => a.finish <= now,
                None => false,
            };
            let ghost before = *self;
            if due {
                let mut more = self.resolve(i);
                proof {
                    es.lemma_flatten_push(more@);
                    es = es.push(more@);
                }
                events.append(&mut more);
            } else {
                proof {
                    es.lemma_flatten_push(Seq::empty());
                    es = es.push(Seq::empty());
                    assert(es.flatten() =~= events@);
                }
            }
            proof {
                ws = ws.push(*self);
                assert(tick_step(ws[i as int], ws[i + 1], i as int, now, es[i as int]));
            }
            i = i + 1;
        }
        assert(ws.last() == *self);
        if n > 0 {
            if let Some(a) = self.units[0].action {
                if a.finish > now {
                    self.meta.current_tick = now + 1;
                }
            }
        }
        events
    }
}

impl World {
    /// Commits actor `i` to `typ` if it is legal now, in place of any action
    /// it had; otherwise leaves the world as it was and returns the refusal.
    pub fn submit(&mut self, i: usize, typ: ActionType) -> (r: Result<(), String>)
        requires
            old(self).wf(),
            i < old(self).units@.len(),
            old(self).meta.current_tick <= u128::MAX - u32::MAX,
        ensures
            final(self).meta == old(self).meta,
            final(self).chunks == old(self).chunks,
            match r {
                Ok(()) => legal(typ, i as int, *old(self)) && final(self).units@ == old(self).units@.update(
                    i as int,
                    Avatar { action: Some(commitment(*old(self), i as int, typ)), ..old(self).units@[i as int] },
                ),
                Err(s) => !legal(typ, i as int, *old(self)) && s@ == refusal(typ, i as int, *old(self))
                    && final(self).units == old(self).units,
            },
    {
        match Action::new(i, typ, self) {
            Ok(a) => {
                self.units[i].action = Some(a);
                Ok(())
            },
            Err(s) => Err(s),
        }
    }

    /// Lets the brain of actor `i` plan, if the actor is idle and not the
    /// player's: it proposes a walk in a random direction, and the walk is
    /// committed only where it is legal.
    pub fn plan_actor(&mut self, i: usize)
        requires
            old(self).wf(),
            i < old(self).units@.len(),
            old(self).meta.current_tick <= u128::MAX - u32::MAX,
        ensures
            final(self).wf(),
            if old(self).units@[i as int].action is None && old(self).units@[i as int].soul is Zombie {
                exists|roll: u32| #[trigger] planned(*old(self), *final(self), i as int, roll)
            } else {
                *final(self) == *old(self)
            },
    {
        if self.units[i].action.is_some() {
            return;
        }
        if let Soul::Player = self.units[i].soul {
            return;
        }
        let roll = crate::dice::roll_below(5);
        let typ = ActionType::Walking(ZombieBrain::direction_of(roll));
        let proposal = Action::new(i, typ, self);
        match &mut self.units[i].soul {
            Soul::Zombie(brain) => brain.plan_with(roll),
            Soul::Player => {},
        }
        if let Ok(a) = proposal {
            self.units[i].action = Some(a);
        }
        assert(planned(*old(self), *self, i as int, roll));
    }
}

} // verus!
