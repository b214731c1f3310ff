//! The catalog of actions: what each kind costs in ticks, and when it is
//! allowed.
use vstd::prelude::*;
use crate::avatar::{Avatar, Soul};
use crate::geometry::{step, Direction, TilePos};
use crate::item::{drop_cost, has_tag, item_mass, wield_cost, Item, ItemTag};
use crate::map::{first_corpse, is_diggable, is_passable, lemma_first_corpse_is_corpse, passage, terrain_name, tile_text, Passage, Terrain};
use crate::text::{utf8_len, utf8_len_capped};
use crate::world::World;

verus! {

#[derive(Debug, Clone, Copy, PartialEq, Eq, Structural)]
pub enum ActionType {
    SkippingTime,
    Walking(Direction),
    Wielding(Direction),
    /// Put down the held item at this index.
    Dropping(usize, Direction),
    Digging(Direction),
    Reading(Direction),
    /// Raise the first corpse on the target tile.
    Animate(Direction),
}

/// Whether an action may start, and if not, why, in words for the player.
#[derive(Debug)]
pub enum ActionPossibility {
    Yes,
    No(String),
}

/// An action that an actor has committed to, due at tick `finish`.
#[derive(Debug, Clone, Copy, PartialEq, Eq, Structural)]
pub struct Action {
    /// Index of the acting actor in the world's registry.
    pub owner: usize,
    pub typ: ActionType,
    pub finish: u128,
}

/// The tile an actor at `pos` acts on in direction `d`.
pub open spec fn target(pos: TilePos, d: Direction) -> TilePos {
    step(pos, d)
}

/// Speed penalty of an actor, in percent of the base walking time.
pub open spec fn speed_percent(s: Soul) -> int {
    match s {
        Soul::Zombie(_) => 75,
        _ => 100,
    }
}

/// `round(len * percent / 100)`, halves rounded up.
pub open spec fn walk_ticks(len: int, percent: int) -> int {
    (len * percent + 50) / 100
}

/// `round(cost * 1.5)` when the item goes to another tile, else `cost`.
pub open spec fn drop_ticks(cost: int, d: Direction) -> int {
    if d == Direction::Here {
        cost
    } else {
        (3 * cost + 1) / 2
    }
}

/// Whether any held item is a digging tool.
pub open spec fn holds_digging_tool(wield: Seq<Item>) -> bool {
    exists|k: int| 0 <= k < wield.len() && has_tag(#[trigger] wield[k], ItemTag::Dig)
}

/// Index of the first actor at or after `i` that stands on `p`.
pub open spec fn first_unit_at(units: Seq<Avatar>, p: TilePos, i: int) -> Option<int>
    decreases units.len() - i,
{
    if i < 0 || i >= units.len() {
        None
    } else if units[i].pos == p {
        Some(i)
    } else {
        first_unit_at(units, p, i + 1)
    }
}

pub proof fn lemma_first_unit_at(units: Seq<Avatar>, p: TilePos, i: int)
    requires
        0 <= i,
    ensures
        first_unit_at(units, p, i) matches Some(k) ==> i <= k < units.len() && units[k].pos == p,
        first_unit_at(units, p, i) is None ==> forall|j: int|
            i <= j < units.len() ==> (#[trigger] units[j]).pos != p,
    decreases units.len() - i,
{
    if i < units.len() && units[i].pos != p {
        lemma_first_unit_at(units, p, i + 1);
    }
}

/// Ticks that an action of actor `owner` takes, started in world `w`.
/// Reading takes one tick per byte of the text in UTF-8.
/// Zero where the target tile has not been generated or holds nothing to
/// act on.
pub open spec fn duration(typ: ActionType, owner: int, w: World) -> int {
    let a = w.units@[owner];
    match typ {
        ActionType::SkippingTime => 1,
        ActionType::Walking(d) => {
            let t = target(a.pos, d);
            if !w.is_loaded(t) {
                0
            } else {
                match passage(w.tile_at(t).terrain) {
                    Passage::Passable(len) => walk_ticks(len as int, speed_percent(a.soul)),
                    Passage::Unpassable => 0,
                }
            }
        },
        ActionType::Wielding(d) => {
            let items = w.tile_at(target(a.pos, d)).items;
            if w.is_loaded(target(a.pos, d)) && items.len() > 0 {
                wield_cost(items.last()) as int
            } else {
                0
            }
        },
        ActionType::Dropping(i, d) => {
            if i < a.wield@.len() {
                drop_ticks(drop_cost(a.wield@[i as int]) as int, d)
            } else {
                0
            }
        },
        ActionType::Digging(d) => {
            if !w.is_loaded(target(a.pos, d)) {
                0
            } else if w.tile_at(target(a.pos, d)).terrain is Grave {
                2000
            } else {
                1000
            }
        },
        ActionType::Reading(d) => {
            let t = target(a.pos, d);
            if w.is_loaded(t) && tile_text(w.tile_at(t)) is Some {
                let n = utf8_len(tile_text(w.tile_at(t)).unwrap());
                if n > u32::MAX {
                    u32::MAX as int
                } else {
                    n as int
                }
            } else {
                0
            }
        },
        ActionType::Animate(d) => {
            let t = target(a.pos, d);
            let items = w.tile_at(t).items;
            if w.is_loaded(t) && first_corpse(items, 0) is Some {
                (item_mass(items[first_corpse(items, 0).unwrap()]) / 10) as int
            } else {
                0
            }
        },
    }
}

/// Whether actor `owner` may start the action in world `w`.
pub open spec fn legal(typ: ActionType, owner: int, w: World) -> bool {
    let a = w.units@[owner];
    match typ {
        ActionType::SkippingTime => true,
        ActionType::Walking(d) => {
            let t = target(a.pos, d);
            w.is_loaded(t) && is_passable(w.tile_at(t).terrain) && first_unit_at(w.units@, t, 0) is None
        },
        ActionType::Wielding(d) => {
            let t = target(a.pos, d);
            a.wield@.len() == 0 && w.is_loaded(t) && w.tile_at(t).items.len() > 0
        },
        ActionType::Dropping(i, d) => {
            let t = target(a.pos, d);
            i < a.wield@.len() && w.is_loaded(t) && is_passable(w.tile_at(t).terrain)
        },
        ActionType::Digging(d) => {
            let t = target(a.pos, d);
            w.is_loaded(t) && is_diggable(w.tile_at(t).terrain) && holds_digging_tool(a.wield@)
        },
        ActionType::Reading(d) => {
            let t = target(a.pos, d);
            w.is_loaded(t) && tile_text(w.tile_at(t)) is Some
        },
        ActionType::Animate(d) => {
            let t = target(a.pos, d);
            w.is_loaded(t) && first_corpse(w.tile_at(t).items, 0) is Some
        },
    }
}

/// The message that refuses an action that is not legal.
pub open spec fn refusal(typ: ActionType, owner: int, w: World) -> Seq<char> {
    let a = w.units@[owner];
    match typ {
        ActionType::Walking(d) => {
            let t = target(a.pos, d);
            if !w.is_loaded(t) {
                "Tile isn't loaded yet"@
            } else if !is_passable(w.tile_at(t).terrain) {
                "You can't walk to the "@ + terrain_name(w.tile_at(t).terrain)
            } else {
                w.units@[first_unit_at(w.units@, t, 0).unwrap()].character.name@ + " is on the way"@
            }
        },
        ActionType::Wielding(d) => {
            if a.wield@.len() > 0 {
                "You already have something in your hands"@
            } else if !w.is_loaded(target(a.pos, d)) {
                "Tile isn't loaded yet"@
            } else {
                "There is nothing to pick up"@
            }
        },
        ActionType::Dropping(i, d) => {
            let t = target(a.pos, d);
            if i >= a.wield@.len() {
                "You have nothing to drop"@
            } else if !w.is_loaded(t) {
                "Tile isn't loaded yet"@
            } else {
                "You can't put items on "@ + terrain_name(w.tile_at(t).terrain)
            }
        },
        ActionType::Digging(d) => {
            let t = target(a.pos, d);
            if !w.is_loaded(t) {
                "Tile isn't loaded yet"@
            } else if !is_diggable(w.tile_at(t).terrain) {
                "You can't dig the "@ + terrain_name(w.tile_at(t).terrain)
            } else {
                "You need a shovel to dig!"@
            }
        },
        ActionType::Reading(_) => "There is nothing to read"@,
        ActionType::Animate(_) => "There is nothing to rise"@,
        ActionType::SkippingTime => Seq::empty(),
    }
}

fn holds_digging_tool_exec(wield: &Vec<Item>) -> (r: bool)
    ensures
        r == holds_digging_tool(wield@),
{
    let mut i: usize = 0;
    while i < wield.len()
        invariant
            i <= wield@.len(),
            forall|k: int| 0 <= k < i ==> !has_tag(#[trigger] wield@[k], ItemTag::Dig),
        decreases wield@.len() - i,
    {
        if wield[i].has_tag(ItemTag::Dig) {
            return true;
        }
        i = i + 1;
    }
    false
}

fn first_unit_at_exec(units: &Vec<Avatar>, p: TilePos) -> (r: Option<usize>)
    ensures
        match r {
            Some(k) => first_unit_at(units@, p, 0) == Some(k as int),
            None => first_unit_at(units@, p, 0) is None,
        },
{
    let mut i: usize = 0;
    while i < units.len()
        invariant
            i <= units@.len(),
            first_unit_at(units@, p, 0) == first_unit_at(units@, p, i as int),
        decreases units@.len() - i,
    {
        if units[i].pos == p {
            return Some(i);
        }
        i = i + 1;
    }
    None
}

impl ActionType {
    /// Ticks that the action takes for actor `owner_id` in `world`.
    pub fn length(&self, owner_id: usize, world: &World) -> (r: u32)
        requires
            world.wf(),
            owner_id < world.units@.len(),
        ensures
            r == duration(*self, owner_id as int, *world),
    {
        let owner = &world.units[owner_id];
        match self {
            ActionType::SkippingTime => 1,
            ActionType::Walking(dir) => {
                let k: u64 = match owner.soul {
                    Soul::Zombie(..) => 75,
                    _ => 100,
                };
                match world.get_tile(owner.pos.step(*dir)) {
                    Some(tile) => match tile.terrain.passage() {
                        Passage::Passable(len) => ((len as u64 * k + 50) / 100) as u32,
                        Passage::Unpassable => 0,
                    },
                    None => 0,
                }
            },
            ActionType::Wielding(dir) => {
                match world.get_tile(owner.pos.step(*dir)) {
                    Some(tile) => {
                        if tile.items.len() > 0 {
                            tile.items[tile.items.len() - 1].wield_time()
                        } else {
                            0
                        }
                    },
                    None => 0,
                }
            },
            ActionType::Dropping(i, dir) => {
                if *i < owner.wield.len() {
                    let cost = owner.wield[*i].drop_time();
                    if *dir == Direction::Here {
                        cost
                    } else {
                        ((3 * cost as u64 + 1) / 2) as u32
                    }
                } else {
                    0
                }
            },
            ActionType::Digging(dir) => {
                match world.get_tile(owner.pos.step(*dir)) {
                    Some(tile) => match tile.terrain {
                        Terrain::Grave(..) => 2000,
                        _ => 1000,
                    },
                    None => 0,
                }
            },
            ActionType::Reading(dir) => {
                match world.get_tile(owner.pos.step(*dir)) {
                    Some(tile) => {
                        if tile.is_readable() {
                            utf8_len_capped(tile.read().as_str())
                        } else {
                            0
                        }
                    },
                    None => 0,
                }
            },
            ActionType::Animate(dir) => {
                match world.get_tile(owner.pos.step(*dir)) {
                    Some(tile) => match tile.first_corpse_from(0) {
                        Some(k) => {
                            proof {
                                lemma_first_corpse_is_corpse(tile.items@, 0);
                            }
                            tile.items[k].mass() / 10
                        },
                        None => 0,
                    },
                    None => 0,
                }
            },
        }
    }

    /// Whether actor `owner_id` may start the action in `world`; a refusal
    /// says why.
    pub fn is_possible(&self, owner_id: usize, world: &World) -> (r: ActionPossibility)
        requires
            world.wf(),
            owner_id < world.units@.len(),
        ensures
            match r {
                ActionPossibility::Yes => legal(*self, owner_id as int, *world),
                ActionPossibility::No(s) => !legal(*self, owner_id as int, *world) && s@ == refusal(
                    *self,
                    owner_id as int,
                    *world,
                ),
            },
    {
        let owner = &world.units[owner_id];
        match self {
            ActionType::SkippingTime => ActionPossibility::Yes,
            ActionType::Walking(dir) => {
                let pos = owner.pos.step(*dir);
                match world.get_tile(pos) {
                    Some(tile) => {
                        if !tile.terrain.is_passable() {
                            let s = String::from_str("You can't walk to the ");
                            return ActionPossibility::No(s.concat(tile.terrain.name()));
                        }
                        match first_unit_at_exec(&world.units, pos) {
                            Some(i) => {
                                proof {
                                    lemma_first_unit_at(world.units@, pos, 0);
                                }
                                let s = world.units[i].character.name.clone();
                                ActionPossibility::No(s.concat(" is on the way"))
                            },
                            None => ActionPossibility::Yes,
                        }
                    },
                    None => ActionPossibility::No(String::from_str("Tile isn't loaded yet")),
                }
            },
            ActionType::Wielding(dir) => {
                if owner.wield.len() > 0 {
                    return ActionPossibility::No(
                        String::from_str("You already have something in your hands"),
                    );
                }
                match world.get_tile(owner.pos.step(*dir)) {
                    Some(tile) => {
                        if tile.items.len() == 0 {
                            ActionPossibility::No(String::from_str("There is nothing to pick up"))
                        } else {
                            ActionPossibility::Yes
                        }
                    },
                    None => ActionPossibility::No(String::from_str("Tile isn't loaded yet")),
                }
            },
            ActionType::Dropping(i, dir) => {
                if *i >= owner.wield.len() {
                    return ActionPossibility::No(String::from_str("You have nothing to drop"));
                }
                match world.get_tile(owner.pos.step(*dir)) {
                    Some(tile) => {
                        if !tile.terrain.is_passable() {
                            let s = String::from_str("You can't put items on ");
                            ActionPossibility::No(s.concat(tile.terrain.name()))
                        } else {
                            ActionPossibility::Yes
                        }
                    },
                    None => ActionPossibility::No(String::from_str("Tile isn't loaded yet")),
                }
            },
            ActionType::Digging(dir) => {
                match world.get_tile(owner.pos.step(*dir)) {
                    Some(tile) => {
                        if !tile.terrain.is_diggable() {
                            let s = String::from_str("You can't dig the ");
                            ActionPossibility::No(s.concat(tile.terrain.name()))
                        } else if !holds_digging_tool_exec(&owner.wield) {
                            ActionPossibility::No(String::from_str("You need a shovel to dig!"))
                        } else {
                            ActionPossibility::Yes
                        }
                    },
                    None => ActionPossibility::No(String::from_str("Tile isn't loaded yet")),
                }
            },
            ActionType::Reading(dir) => {
                if let Some(tile) = world.get_tile(owner.pos.step(*dir)) {
                    if tile.is_readable() {
                        return ActionPossibility::Yes;
                    }
                }
                ActionPossibility::No(String::from_str("There is nothing to read"))
            },
            ActionType::Animate(dir) => {
                if let Some(tile) = world.get_tile(owner.pos.step(*dir)) {
                    if tile.first_corpse_from(0).is_some() {
                        return ActionPossibility::Yes;
                    }
                }
                ActionPossibility::No(String::from_str("There is nothing to rise"))
            },
        }
    }
}

impl Action {
    /// Commits actor `owner` to `typ` if it is legal now; the action is due
    /// once the clock reaches the current tick plus its length. Otherwise the
    /// refusal comes back as the error.
    pub fn new(owner: usize, typ: ActionType, world: &World) -> (r: Result<Action, String>)
        requires
            world.wf(),
            owner < world.units@.len(),
            world.meta.current_tick <= u128::MAX - u32::MAX,
        ensures
            match r {
                Ok(a) => legal(typ, owner as int, *world) && a.owner == owner && a.typ == typ
                    && a.finish == world.meta.current_tick + duration(typ, owner as int, *world),
                Err(s) => !legal(typ, owner as int, *world) && s@ == refusal(typ, owner as int, *world),
            },
    {
        match typ.is_possible(owner, world) {
            ActionPossibility::Yes => {
                let length = typ.length(owner, world);
                Ok(Action { owner, typ, finish: world.meta.current_tick + length as u128 })
            },
            ActionPossibility::No(s) => Err(s),
        }
    }
}

} // verus!
