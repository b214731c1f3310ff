use necromanzer::action::{Action, ActionPossibility, ActionType};
use necromanzer::avatar::Avatar;
use necromanzer::geometry::{Direction, TilePos};
use necromanzer::human::{Character, Freshness, Gender, MainHand, SkinTone};
use necromanzer::item::{Axe, GraveData, Gravestone, Item, Shovel};
use necromanzer::map::Terrain;
use necromanzer::turn::ActionResult;
use necromanzer::world::{World, WorldMeta};

fn prepare_world() -> World {
    let character = Character::new("player", Gender::Female, 25, MainHand::Left, SkinTone::WarmIvory);
    let meta = WorldMeta { name: "test".to_string(), seed: 42, current_tick: 0 };
    let mut world = World::new(meta, Avatar::player(character, TilePos::new(0, 0)));
    world.load_tile(TilePos::new(0, 0));
    world
}

fn run_until_idle(world: &mut World) -> Vec<ActionResult> {
    let mut events = Vec::new();
    while world.player().action.is_some() {
        events.extend(world.tick());
    }
    events
}

#[test]
fn test_walking() {
    let mut world = prepare_world();
    world.load_tile_mut(TilePos::new(1, 0)).terrain = Terrain::Dirt;

    assert_eq!(TilePos::new(0, 0), world.player().pos);
    assert_eq!(0, world.meta.current_tick);

    let typ = ActionType::Walking(Direction::East);
    let length = typ.length(0, &world);
    world.player_mut().action = Some(Action::new(0, typ, &world).unwrap());
    run_until_idle(&mut world);

    assert_eq!(length as u128, world.meta.current_tick);
    assert_eq!(TilePos::new(1, 0), world.player().pos);
}

#[test]
fn test_wielding() {
    let mut world = prepare_world();
    world.load_tile_mut(TilePos::new(1, 0)).items.clear();
    world.load_tile_mut(TilePos::new(1, 0)).items.push(Item::Axe(Axe::new()));

    assert!(world.player().wield.is_empty());
    assert_eq!(0, world.meta.current_tick);

    let typ = ActionType::Wielding(Direction::East);
    let length = typ.length(0, &world);
    world.player_mut().action = Some(Action::new(0, typ, &world).unwrap());
    run_until_idle(&mut world);

    assert_eq!(length as u128, world.meta.current_tick);
    assert_eq!(TilePos::new(0, 0), world.player().pos);
    assert_eq!(1, world.player().wield.len());
    let item = world.player().wield.first().unwrap();
    assert!(matches!(item, Item::Axe(..)));
}

#[test]
fn test_skipping_time() {
    let mut world = prepare_world();

    assert_eq!(0, world.meta.current_tick);
    let typ = ActionType::SkippingTime;
    let length = typ.length(0, &world);
    assert_eq!(1, length);
    world.player_mut().action = Some(Action::new(0, typ, &world).unwrap());
    world.tick();
    assert_eq!(1, world.meta.current_tick);
}

#[test]
fn test_dropping() {
    let mut world = prepare_world();
    world.load_tile_mut(TilePos::new(0, 0)).terrain = Terrain::Dirt;
    world.load_tile_mut(TilePos::new(0, 0)).items.clear();
    world.player_mut().wield.clear();
    world.player_mut().wield.push(Item::Axe(Axe::new()));

    let typ = ActionType::Dropping(0, Direction::Here);
    let length = typ.length(0, &world);
    world.player_mut().action = Some(Action::new(0, typ, &world).unwrap());
    run_until_idle(&mut world);

    assert_eq!(length as u128, world.meta.current_tick);
    assert_eq!(TilePos::new(0, 0), world.player().pos);
    assert_eq!(0, world.player().wield.len());
    assert_eq!(1, world.load_tile(TilePos::new(0, 0)).items.len());
    let item = world.load_tile(TilePos::new(0, 0)).items.first().unwrap();
    assert!(matches!(item, Item::Axe(..)));
}

#[test]
fn test_digging() {
    let mut world = prepare_world();
    world.player_mut().wield.clear();
    world.load_tile_mut(TilePos::new(1, 0)).terrain = Terrain::Dirt;

    let typ = ActionType::Digging(Direction::East);
    let length = typ.length(0, &world);
    assert!(Action::new(0, typ, &world).is_err());

    world.player_mut().wield.push(Item::Shovel(Shovel::new()));
    world.player_mut().action = Some(Action::new(0, typ, &world).unwrap());
    run_until_idle(&mut world);

    assert_eq!(length as u128, world.meta.current_tick);
    assert_eq!(TilePos::new(0, 0), world.player().pos);
    assert!(matches!(world.load_tile(TilePos::new(1, 0)).terrain, Terrain::Pit));

    let character = Character::new("test", Gender::Male, 25, MainHand::Right, SkinTone::Amber);
    world.load_tile_mut(TilePos::new(1, 0)).terrain =
        Terrain::Grave(GraveData { character, death_year: 255 });
    world.player_mut().action = Some(Action::new(0, typ, &world).unwrap());
    run_until_idle(&mut world);
    assert!(matches!(world.load_tile(TilePos::new(1, 0)).terrain, Terrain::Pit));
    let mut corpse = None;
    let mut gravestone = None;
    for k in 0..8 {
        let pos = TilePos::new(1, 0).step(Direction::dir8(k));
        for item in world.load_tile_mut(pos).items.iter() {
            match item {
                Item::Corpse(c) => {
                    corpse = Some((c.character.clone(), c.body.freshness));
                }
                Item::Gravestone(g) => {
                    gravestone = Some(g.data.clone());
                }
                _ => {}
            }
        }
    }
    assert!(corpse.is_some());
    if let Some((ch, freshness)) = corpse {
        assert_eq!("test", ch.name);
        assert_eq!(SkinTone::Amber, ch.skin_tone);
        assert_eq!(Gender::Male, ch.gender);
        assert_eq!(25, ch.age);
        assert_eq!(MainHand::Right, ch.main_hand);
        assert_eq!(Freshness::Skeletal, freshness);
    } else {
        unreachable!();
    }
    assert!(gravestone.is_some());
    if let Some(data) = gravestone {
        assert_eq!("test", data.character.name);
        assert_eq!(SkinTone::Amber, data.character.skin_tone);
        assert_eq!(Gender::Male, data.character.gender);
        assert_eq!(25, data.character.age);
        assert_eq!(MainHand::Right, data.character.main_hand);
    } else {
        unreachable!();
    }
}

#[test]
fn test_reading() {
    let mut world = prepare_world();

    let character = Character::new("test", Gender::Male, 25, MainHand::Right, SkinTone::Amber);
    let data = GraveData { character, death_year: 255 };
    world.load_tile_mut(TilePos::new(1, 0)).terrain = Terrain::Grave(data.clone());
    let typ = ActionType::Reading(Direction::East);
    let length = typ.length(0, &world);
    world.player_mut().action = Some(Action::new(0, typ, &world).unwrap());
    while world.player().action.is_some() {
        let results = world.tick();
        for result in results {
            match result {
                ActionResult::LogMessage(s) => {
                    assert_eq!("You read on gravestone: test. 230 — 255", s);
                }
            }
        }
    }
    assert_eq!(length as u128, world.meta.current_tick);

    world.load_tile_mut(TilePos::new(0, 1)).terrain = Terrain::Dirt;
    world.load_tile_mut(TilePos::new(0, 1)).items.clear();
    let typ = ActionType::Reading(Direction::South);
    assert!(Action::new(0, typ, &world).is_err());

    world.load_tile_mut(TilePos::new(0, 1)).items.push(Item::Gravestone(Gravestone::new(data)));

    let length = typ.length(0, &world);
    world.player_mut().action = Some(Action::new(0, typ, &world).unwrap());
    while world.player().action.is_some() {
        let results = world.tick();
        for result in results {
            match result {
                ActionResult::LogMessage(s) => {
                    assert_eq!("You read on gravestone: test. 230 — 255", s);
                }
            }
        }
    }
    assert_eq!(length as u128 * 2, world.meta.current_tick);
}

#[test]
fn walking_onto_dirt_takes_its_length_and_lands_on_finish() {
    let mut world = prepare_world();
    world.load_tile_mut(TilePos::new(1, 0)).terrain = Terrain::Dirt;
    let typ = ActionType::Walking(Direction::East);
    let length = typ.length(0, &world);
    assert_eq!(10, length);
    world.player_mut().action = Some(Action::new(0, typ, &world).unwrap());
    for step in 1..=length {
        world.tick();
        assert_eq!(step as u128, world.meta.current_tick);
        assert_eq!(TilePos::new(0, 0), world.player().pos);
    }
    world.tick();
    assert_eq!(TilePos::new(1, 0), world.player().pos);
    assert_eq!(length as u128, world.meta.current_tick);
    assert!(world.player().action.is_none());
}

#[test]
fn idle_world_keeps_its_clock() {
    let mut world = prepare_world();
    world.meta.current_tick = 7;
    for _ in 0..3 {
        let events = world.tick();
        assert!(events.is_empty());
        assert_eq!(7, world.meta.current_tick);
    }
}

#[test]
fn zombie_walks_three_quarters_of_the_time() {
    let mut world = prepare_world();
    world.load_tile_mut(TilePos::new(5, 5)).terrain = Terrain::Dirt;
    world.load_tile_mut(TilePos::new(6, 5)).terrain = Terrain::Grass;
    let character = Character::new("Bob", Gender::Male, 40, MainHand::Right, SkinTone::Sienna);
    let zombie = Avatar::zombie(character, necromanzer::human::Body::human(Freshness::Rotten), TilePos::new(5, 5));
    world.units.push(zombie);
    // round(11 * 0.75) = round(8.25) = 8
    assert_eq!(8, ActionType::Walking(Direction::East).length(1, &world));
    world.load_tile_mut(TilePos::new(6, 5)).terrain = Terrain::Dirt;
    // round(10 * 0.75) = round(7.5) = 8
    assert_eq!(8, ActionType::Walking(Direction::East).length(1, &world));
}

#[test]
fn walking_is_refused_with_reasons() {
    let mut world = prepare_world();
    world.load_tile_mut(TilePos::new(1, 0)).terrain = Terrain::Boulder;
    match ActionType::Walking(Direction::East).is_possible(0, &world) {
        ActionPossibility::No(s) => assert_eq!("You can't walk to the boulder", s),
        ActionPossibility::Yes => panic!("walked into a boulder"),
    }
    assert_eq!(0, ActionType::Walking(Direction::East).length(0, &world));
    world.load_tile_mut(TilePos::new(1, 0)).terrain = Terrain::Dirt;
    let character = Character::new("Bob", Gender::Male, 40, MainHand::Right, SkinTone::Sienna);
    world.units.push(Avatar::zombie(character, necromanzer::human::Body::human(Freshness::Rotten), TilePos::new(1, 0)));
    assert_eq!(Err("Bob is on the way".to_string()), Action::new(0, ActionType::Walking(Direction::East), &world));
    assert_eq!(
        Err("Tile isn't loaded yet".to_string()),
        Action::new(0, ActionType::Walking(Direction::West), &world)
    );
    assert_eq!(0, ActionType::Walking(Direction::West).length(0, &world));
}

#[test]
fn refusals_of_each_kind() {
    let mut world = prepare_world();
    world.load_tile_mut(TilePos::new(1, 0)).items.clear();
    world.load_tile_mut(TilePos::new(1, 0)).terrain = Terrain::Pit;
    let err = |w: &World, t: ActionType| Action::new(0, t, w).unwrap_err();
    assert_eq!("There is nothing to pick up", err(&world, ActionType::Wielding(Direction::East)));
    assert_eq!("You have nothing to drop", err(&world, ActionType::Dropping(0, Direction::East)));
    assert_eq!("You can't dig the pit", err(&world, ActionType::Digging(Direction::East)));
    assert_eq!("There is nothing to read", err(&world, ActionType::Reading(Direction::East)));
    assert_eq!("There is nothing to rise", err(&world, ActionType::Animate(Direction::East)));
    world.player_mut().wield.push(Item::Axe(Axe::new()));
    assert_eq!(
        "You already have something in your hands",
        err(&world, ActionType::Wielding(Direction::East))
    );
    assert_eq!("You can't put items on pit", err(&world, ActionType::Dropping(0, Direction::East)));
    assert_eq!("You have nothing to drop", err(&world, ActionType::Dropping(1, Direction::East)));
    world.load_tile_mut(TilePos::new(1, 0)).terrain = Terrain::Grass;
    assert_eq!("You need a shovel to dig!", err(&world, ActionType::Digging(Direction::East)));
    assert_eq!("Tile isn't loaded yet", err(&world, ActionType::Digging(Direction::West)));
}

#[test]
fn durations_of_each_kind() {
    let mut world = prepare_world();
    world.load_tile_mut(TilePos::new(1, 0)).terrain = Terrain::Grass;
    world.load_tile_mut(TilePos::new(1, 0)).items.clear();
    world.load_tile_mut(TilePos::new(1, 0)).items.push(Item::Hat(necromanzer::item::Hat::new()));
    world.load_tile_mut(TilePos::new(1, 0)).items.push(Item::Shovel(Shovel::new()));
    assert_eq!(11, ActionType::Walking(Direction::East).length(0, &world));
    // the top item is the shovel: 2500 g / 40
    assert_eq!(62, ActionType::Wielding(Direction::East).length(0, &world));
    assert_eq!(1000, ActionType::Digging(Direction::East).length(0, &world));
    world.player_mut().wield.push(Item::Axe(Axe::new()));
    // an axe takes 20 ticks to drop here, round(20 * 1.5) = 30 elsewhere
    assert_eq!(20, ActionType::Dropping(0, Direction::Here).length(0, &world));
    assert_eq!(30, ActionType::Dropping(0, Direction::East).length(0, &world));
    assert_eq!(0, ActionType::Dropping(3, Direction::East).length(0, &world));
    world.player_mut().wield.clear();
    world.player_mut().wield.push(Item::Cloak(necromanzer::item::Cloak::new()));
    // a cloak takes 15 ticks here, round(22.5) = 23 elsewhere
    assert_eq!(23, ActionType::Dropping(0, Direction::East).length(0, &world));
    let character = Character::new("test", Gender::Male, 25, MainHand::Right, SkinTone::Amber);
    world.load_tile_mut(TilePos::new(1, 0)).terrain =
        Terrain::Grave(GraveData { character, death_year: 255 });
    assert_eq!(2000, ActionType::Digging(Direction::East).length(0, &world));
    // "test. 230 — 255" has 15 characters and 17 bytes: the dash takes 3
    assert_eq!(17, ActionType::Reading(Direction::East).length(0, &world));
    assert_eq!(0, ActionType::Digging(Direction::West).length(0, &world));
    assert_eq!(0, ActionType::Animate(Direction::East).length(0, &world));
}

#[test]
fn digging_plain_ground_spawns_nothing() {
    let mut world = prepare_world();
    world.player_mut().wield.push(Item::Shovel(Shovel::new()));
    world.load_tile_mut(TilePos::new(1, 0)).terrain = Terrain::Dirt;
    let mut counts = Vec::new();
    for k in 0..8 {
        counts.push(world.load_tile(TilePos::new(1, 0).step(Direction::dir8(k))).items.len());
    }
    world.player_mut().action = Some(Action::new(0, ActionType::Digging(Direction::East), &world).unwrap());
    run_until_idle(&mut world);
    assert!(matches!(world.load_tile(TilePos::new(1, 0)).terrain, Terrain::Pit));
    for k in 0..8 {
        assert_eq!(counts[k], world.load_tile(TilePos::new(1, 0).step(Direction::dir8(k))).items.len());
    }
    // a pit cannot be dug again
    assert_eq!(
        Err("You can't dig the pit".to_string()),
        Action::new(0, ActionType::Digging(Direction::East), &world)
    );
}

#[test]
fn grave_goods_land_on_the_first_neighbour_with_capacity() {
    let mut world = prepare_world();
    world.player_mut().wield.push(Item::Shovel(Shovel::new()));
    let grave = TilePos::new(10, 10);
    world.units[0].pos = TilePos::new(9, 10);
    for k in 0..8 {
        let n = grave.step(Direction::dir8(k));
        world.load_tile_mut(n).items.clear();
        world.load_tile_mut(n).terrain = if k < 3 { Terrain::Boulder } else { Terrain::Dirt };
    }
    let character = Character::new("Ann", Gender::Female, 80, MainHand::Left, SkinTone::Honey);
    world.load_tile_mut(grave).terrain = Terrain::Grave(GraveData { character, death_year: 1900 });
    world.player_mut().action = Some(Action::new(0, ActionType::Digging(Direction::East), &world).unwrap());
    run_until_idle(&mut world);
    assert!(matches!(world.load_tile(grave).terrain, Terrain::Pit));
    for k in 0..8 {
        let items = &world.load_tile(grave.step(Direction::dir8(k))).items;
        if k == 3 {
            assert_eq!(2, items.len());
            assert!(matches!(&items[0], Item::Corpse(c) if c.character.name == "Ann" && c.character.age == 80));
            assert!(matches!(&items[1], Item::Gravestone(g) if g.data.death_year == 1900));
        } else {
            assert!(items.is_empty());
        }
    }
    // reading the stone on that neighbour: the actor stands on (9, 10),
    // the stone lies south-east of the grave, at (11, 11)
    world.units[0].pos = TilePos::new(11, 10);
    let typ = ActionType::Reading(Direction::South);
    world.player_mut().action = Some(Action::new(0, typ, &world).unwrap());
    let events = run_until_idle(&mut world);
    assert_eq!(1, events.len());
    match &events[0] {
        ActionResult::LogMessage(s) => assert_eq!("You read on gravestone: Ann. 1820 — 1900", s),
    }
}

#[test]
fn animated_corpse_rises_as_a_zombie() {
    let mut world = prepare_world();
    let character = Character::new("Cid", Gender::Custom("agender".to_string()), 30, MainHand::Ambidexter, SkinTone::Umber);
    world.load_tile_mut(TilePos::new(1, 0)).items.clear();
    world.load_tile_mut(TilePos::new(1, 0)).items.push(Item::Axe(Axe::new()));
    world.load_tile_mut(TilePos::new(1, 0)).items.push(Item::Corpse(necromanzer::item::Corpse {
        character,
        body: necromanzer::human::Body::human(Freshness::Rotten),
    }));
    let typ = ActionType::Animate(Direction::East);
    assert_eq!(6000, typ.length(0, &world));
    world.player_mut().action = Some(Action::new(0, typ, &world).unwrap());
    run_until_idle(&mut world);
    assert_eq!(2, world.units.len());
    assert_eq!(TilePos::new(1, 0), world.units[1].pos);
    assert_eq!("Cid", world.units[1].character.name);
    assert_eq!("Zombie Cid", world.units[1].name_for_actions());
    assert_eq!(1, world.load_tile(TilePos::new(1, 0)).items.len());
    assert!(matches!(world.load_tile(TilePos::new(1, 0)).items[0], Item::Axe(..)));
}

#[test]
fn wielding_takes_the_top_item() {
    let mut world = prepare_world();
    world.load_tile_mut(TilePos::new(1, 0)).items.clear();
    world.load_tile_mut(TilePos::new(1, 0)).items.push(Item::Axe(Axe::new()));
    world.load_tile_mut(TilePos::new(1, 0)).items.push(Item::Shovel(Shovel::new()));
    world.player_mut().action = Some(Action::new(0, ActionType::Wielding(Direction::East), &world).unwrap());
    run_until_idle(&mut world);
    assert!(matches!(world.player().wield[0], Item::Shovel(..)));
    assert_eq!(1, world.load_tile(TilePos::new(1, 0)).items.len());
    assert!(matches!(world.load_tile(TilePos::new(1, 0)).items[0], Item::Axe(..)));
}

#[test]
fn reading_takes_one_tick_per_byte() {
    let mut world = prepare_world();
    let character = Character::new("Zoë", Gender::Female, 9, MainHand::Right, SkinTone::Amber);
    world.load_tile_mut(TilePos::new(1, 0)).terrain = Terrain::Grave(GraveData { character, death_year: 1000 });
    // "Zoë. 991 — 1000": 15 characters, 18 bytes (ë takes 2, the dash 3)
    let typ = ActionType::Reading(Direction::East);
    assert_eq!(18, typ.length(0, &world));
    assert_eq!("Zoë. 991 — 1000".len() as u32, typ.length(0, &world));
}
