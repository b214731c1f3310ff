//! Actors: their identity, position, held items and pending action.
use vstd::prelude::*;
use crate::action::Action;
use crate::brain::ZombieBrain;
use crate::geometry::TilePos;
use crate::human::{Body, Character, Freshness};
use crate::item::{Cloak, Hat, Item};

verus! {

/// What drives an actor: the player's input or a brain.
#[derive(Debug)]
pub enum Soul {
    Player,
    Zombie(ZombieBrain),
}

#[derive(Debug)]
pub struct Avatar {
    pub character: Character,
    pub body: Body,
    pub pos: TilePos,
    /// The committed action, if any: an actor has at most one.
    pub action: Option<Action>,
    /// Items held in the hands.
    pub wield: Vec<Item>,
    pub stamina: u8,
    pub soul: Soul,
}

/// How the name of an actor reads in messages about what it does.
pub open spec fn name_for_actions(soul: Soul, name: Seq<char>) -> Seq<char> {
    match soul {
        Soul::Player => "You"@,
        Soul::Zombie(_) => "Zombie "@ + name,
    }
}

impl Avatar {
    pub fn new(character: Character, body: Body, soul: Soul, pos: TilePos) -> (r: Avatar)
        ensures
            r.character == character,
            r.body == body,
            r.soul == soul,
            r.pos == pos,
            r.action is None,
            r.wield@.len() == 0,
            r.stamina == 100,
    {
        Avatar { character, body, soul, pos, action: None, wield: Vec::new(), stamina: 100 }
    }

    /// The player's actor: a fresh body wearing a cloak and a hat.
    pub fn player(character: Character, pos: TilePos) -> (r: Avatar)
        ensures
            r.character == character,
            r.soul is Player,
            r.pos == pos,
            r.action is None,
            r.wield@.len() == 0,
            r.body.freshness == Freshness::Fresh,
            r.body.wear@.len() == 2,
            r.body.wear@[0] is Cloak,
            r.body.wear@[1] is Hat,
    {
        let mut body = Body::human(Freshness::Fresh);
        body.wear.push(Item::Cloak(Cloak::new()));
        body.wear.push(Item::Hat(Hat::new()));
        Self::new(character, body, Soul::Player, pos)
    }

    /// An actor driven by a wandering brain.
    pub fn zombie(character: Character, body: Body, pos: TilePos) -> (r: Avatar)
        ensures
            r.character == character,
            r.body == body,
            r.soul matches Soul::Zombie(b) && b.action == crate::action::ActionType::SkippingTime,
            r.pos == pos,
            r.action is None,
            r.wield@.len() == 0,
    {
        Self::new(character, body, Soul::Zombie(ZombieBrain::new()), pos)
    }

    pub fn name_for_actions(&self) -> (r: String)
        ensures
            r@ == name_for_actions(self.soul, self.character.name@),
    {
        match self.soul {
            Soul::Player => String::from_str("You"),
            Soul::Zombie(..) => {
                let s = String::from_str("Zombie ");
                s.concat(self.character.name.as_str())
            },
        }
    }
}

} // verus!
