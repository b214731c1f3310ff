//! Items that lie on tiles or are held by actors.
use vstd::prelude::*;
use crate::human::{Body, Character, CharacterView};
use crate::text::{decimal, push_decimal};

verus! {

/// A buried person: who they were and the year they died.
#[derive(Debug)]
pub struct GraveData {
    pub character: Character,
    pub death_year: u16,
}

impl Clone for GraveData {
    fn clone(&self) -> (r: Self)
        ensures
            r.character@ == self.character@,
            r.death_year == self.death_year,
    {
        GraveData { character: self.character.clone(), death_year: self.death_year }
    }
}

/// The text carved on a grave or a gravestone:
/// `"{name}. {death_year - age} — {death_year}"`.
pub open spec fn inscription(c: CharacterView, death_year: u16) -> Seq<char> {
    c.name + ". "@ + decimal(death_year - c.age) + " — "@ + decimal(death_year as int)
}

impl GraveData {
    /// The text carved on this grave.
    pub fn inscription(&self) -> (r: String)
        ensures
            r@ == inscription(self.character@, self.death_year),
    {
        let mut s = self.character.name.clone();
        s.append(". ");
        push_decimal(&mut s, self.death_year as i64 - self.character.age as i64);
        s.append(" — ");
        push_decimal(&mut s, self.death_year as i64);
        s
    }
}

#[derive(Debug, Clone, Copy, PartialEq, Eq, Structural)]
pub struct Axe;

#[derive(Debug, Clone, Copy, PartialEq, Eq, Structural)]
pub struct Shovel;

#[derive(Debug, Clone, Copy, PartialEq, Eq, Structural)]
pub struct Cloak;

#[derive(Debug, Clone, Copy, PartialEq, Eq, Structural)]
pub struct Hat;

impl Axe {
    pub fn new() -> Axe {
        Axe
    }
}

impl Shovel {
    pub fn new() -> Shovel {
        Shovel
    }
}

impl Cloak {
    pub fn new() -> Cloak {
        Cloak
    }
}

impl Hat {
    pub fn new() -> Hat {
        Hat
    }
}

/// A stone with the identity and death year of the one buried beneath.
#[derive(Debug)]
pub struct Gravestone {
    pub data: GraveData,
}

impl Gravestone {
    pub fn new(data: GraveData) -> (r: Gravestone)
        ensures
            r.data == data,
    {
        Gravestone { data }
    }
}

/// The remains of a person.
#[derive(Debug)]
pub struct Corpse {
    pub character: Character,
    pub body: Body,
}

#[derive(Debug)]
pub enum Item {
    Axe(Axe),
    Shovel(Shovel),
    Cloak(Cloak),
    Hat(Hat),
    Gravestone(Gravestone),
    Corpse(Corpse),
}

/// What an item can be used for.
#[derive(Debug, Clone, Copy, PartialEq, Eq, Structural)]
pub enum ItemTag {
    Dig,
    Butch,
}

/// Mass of an item, in grams.
pub open spec fn item_mass(i: Item) -> u32 {
    match i {
        Item::Axe(_) => 2000,
        Item::Shovel(_) => 2500,
        Item::Cloak(_) => 1500,
        Item::Hat(_) => 200,
        Item::Gravestone(_) => 60000,
        Item::Corpse(_) => 60000,
    }
}

/// Ticks it takes to pick an item up.
pub open spec fn wield_cost(i: Item) -> u32 {
    (item_mass(i) / 40) as u32
}

/// Ticks it takes to put an item down on one's own tile.
pub open spec fn drop_cost(i: Item) -> u32 {
    (item_mass(i) / 100) as u32
}

pub open spec fn has_tag(i: Item, t: ItemTag) -> bool {
    match i {
        Item::Shovel(_) => t == ItemTag::Dig,
        Item::Axe(_) => t == ItemTag::Butch,
        _ => false,
    }
}

/// The text an item carries, if it can be read.
pub open spec fn item_text(i: Item) -> Option<Seq<char>> {
    match i {
        Item::Gravestone(g) => Some(inscription(g.data.character@, g.data.death_year)),
        _ => None,
    }
}

impl Item {
    pub fn mass(&self) -> (r: u32)
        ensures
            r == item_mass(*self),
    {
        match self {
            Item::Axe(_) => 2000,
            Item::Shovel(_) => 2500,
            Item::Cloak(_) => 1500,
            Item::Hat(_) => 200,
            Item::Gravestone(_) => 60000,
            Item::Corpse(_) => 60000,
        }
    }

    pub fn wield_time(&self) -> (r: u32)
        ensures
            r == wield_cost(*self),
    {
        self.mass() / 40
    }

    pub fn drop_time(&self) -> (r: u32)
        ensures
            r == drop_cost(*self),
    {
        self.mass() / 100
    }

    pub fn has_tag(&self, t: ItemTag) -> (r: bool)
        ensures
            r == has_tag(*self, t),
    {
        match self {
            Item::Shovel(_) => t == ItemTag::Dig,
            Item::Axe(_) => t == ItemTag::Butch,
            _ => false,
        }
    }

    pub fn is_readable(&self) -> (r: bool)
        ensures
            r == item_text(*self).is_some(),
    {
        matches!(self, Item::Gravestone(_))
    }

    pub fn is_corpse(&self) -> (r: bool)
        ensures
            r == (*self is Corpse),
    {
        matches!(self, Item::Corpse(_))
    }

    /// The text on the item; empty for an item without one.
    pub fn read(&self) -> (r: String)
        ensures
            item_text(*self).is_some() ==> r@ == item_text(*self).unwrap(),
            item_text(*self).is_none() ==> r@.len() == 0,
    {
        match self {
            Item::Gravestone(g) => g.data.inscription(),
            _ => String::new(),
        }
    }
}

} // verus!
