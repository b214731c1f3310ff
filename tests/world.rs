use rand::{RngCore, SeedableRng};
use necromanzer::action::{Action, ActionType};
use necromanzer::avatar::{Avatar, Soul};
use necromanzer::brain::ZombieBrain;
use necromanzer::geometry::{ChunkPos, Direction, TilePos};
use necromanzer::human::{Body, Character, Freshness, Gender, MainHand, SkinTone};
use necromanzer::map::{Chunk, Terrain, Tile};
use necromanzer::world::{World, WorldMeta};

fn world_with_seed(seed: u64) -> World {
    let character = Character::new("player", Gender::Male, 30, MainHand::Right, SkinTone::Beige);
    let meta = WorldMeta { name: "w".to_string(), seed, current_tick: 0 };
    World::new(meta, Avatar::player(character, TilePos::new(0, 0)))
}

fn same_tile(a: &Tile, b: &Tile) -> bool {
    let same_terrain = matches!(
        (&a.terrain, &b.terrain),
        (Terrain::Dirt, Terrain::Dirt)
            | (Terrain::Grass, Terrain::Grass)
            | (Terrain::Boulder, Terrain::Boulder)
            | (Terrain::Pit, Terrain::Pit)
    );
    same_terrain && a.items.is_empty() && b.items.is_empty()
}

#[test]
fn loading_a_chunk_twice_gives_the_same_tiles() {
    let mut world = world_with_seed(7);
    let first: Vec<String> = world.load_chunk(ChunkPos { x: 3, y: -2 }).tiles.iter().map(|t| format!("{:?}", t)).collect();
    let second: Vec<String> = world.load_chunk(ChunkPos { x: 3, y: -2 }).tiles.iter().map(|t| format!("{:?}", t)).collect();
    assert_eq!(1024, first.len());
    assert_eq!(first, second);
}

#[test]
fn generation_depends_on_seed_and_position_only() {
    let a = Chunk::generate(99, ChunkPos { x: -1, y: 4 });
    let b = Chunk::generate(99, ChunkPos { x: -1, y: 4 });
    assert_eq!(ChunkPos { x: -1, y: 4 }, a.pos);
    for k in 0..1024 {
        assert!(same_tile(&a.tiles[k], &b.tiles[k]));
    }
    let mut world = world_with_seed(99);
    let tile = world.load_tile(TilePos::new(-32 + 5, 128 + 2));
    assert!(same_tile(tile, &a.tiles[2 * 32 + 5]));
}

#[test]
fn generation_varies_over_the_map() {
    let chunk = Chunk::generate(1, ChunkPos { x: 0, y: 0 });
    let dirt = chunk.tiles.iter().filter(|t| matches!(t.terrain, Terrain::Dirt)).count();
    let grass = chunk.tiles.iter().filter(|t| matches!(t.terrain, Terrain::Grass)).count();
    let boulders = chunk.tiles.iter().filter(|t| matches!(t.terrain, Terrain::Boulder)).count();
    assert_eq!(1024, dirt + grass + boulders);
    assert!(dirt > 0 && grass > 0 && boulders > 0);
    let other = Chunk::generate(2, ChunkPos { x: 0, y: 0 });
    let differs = (0..1024).any(|k| !same_tile(&chunk.tiles[k], &other.tiles[k]));
    assert!(differs);
}

#[test]
fn get_tile_sees_only_generated_chunks() {
    let mut world = world_with_seed(5);
    assert!(world.get_tile(TilePos::new(40, 40)).is_none());
    world.load_tile(TilePos::new(33, 63));
    assert!(world.get_tile(TilePos::new(40, 40)).is_some());
    assert!(world.get_tile(TilePos::new(31, 40)).is_none());
    assert!(world.get_tile(TilePos::new(64, 40)).is_none());
}

#[test]
fn edits_survive_later_loads() {
    let mut world = world_with_seed(5);
    world.load_tile_mut(TilePos::new(-1, -1)).terrain = Terrain::Pit;
    world.load_chunk(ChunkPos { x: -1, y: -1 });
    world.load_tile(TilePos::new(-100, 3));
    assert!(matches!(world.load_tile(TilePos::new(-1, -1)).terrain, Terrain::Pit));
    assert!(matches!(world.get_tile(TilePos::new(-1, -1)).unwrap().terrain, Terrain::Pit));
}

#[test]
fn positions_split_by_floor_division() {
    assert_eq!((ChunkPos { x: 0, y: 0 }, 0), TilePos::new(0, 0).chunk_and_index());
    assert_eq!((ChunkPos { x: -1, y: 0 }, 31), TilePos::new(-1, 0).chunk_and_index());
    assert_eq!((ChunkPos { x: -1, y: -1 }, 1023), TilePos::new(-1, -1).chunk_and_index());
    assert_eq!((ChunkPos { x: 1, y: 2 }, 32 * 3 + 1), TilePos::new(33, 67).chunk_and_index());
    assert_eq!(
        (ChunkPos { x: -67108864, y: 67108863 }, 31 * 32),
        TilePos::new(i32::MIN, i32::MAX).chunk_and_index()
    );
}

#[test]
fn steps_wrap_around_the_edge() {
    assert_eq!(TilePos::new(1, 0), TilePos::new(0, 0).step(Direction::East));
    assert_eq!(TilePos::new(-1, 1), TilePos::new(0, 0).step(Direction::SouthWest));
    assert_eq!(TilePos::new(0, -1), TilePos::new(0, 0).step(Direction::North));
    assert_eq!(TilePos::new(i32::MIN, 5), TilePos::new(i32::MAX, 5).step(Direction::East));
    assert_eq!(TilePos::new(3, i32::MAX), TilePos::new(3, i32::MIN).step(Direction::North));
    assert_eq!(TilePos::new(3, 3), TilePos::new(3, 3).step(Direction::Here));
}

#[test]
fn the_clock_moves_one_tick_per_step_towards_the_players_action() {
    let mut world = world_with_seed(3);
    world.load_tile(TilePos::new(0, 0));
    world.meta.current_tick = 100;
    world.player_mut().action = Some(Action::new(0, ActionType::SkippingTime, &world).unwrap());
    assert_eq!(101, world.player().action.unwrap().finish);
    world.tick();
    assert_eq!(101, world.meta.current_tick);
    assert!(world.player().action.is_some());
    world.tick();
    assert_eq!(101, world.meta.current_tick);
    assert!(world.player().action.is_none());
    world.tick();
    assert_eq!(101, world.meta.current_tick);
}

#[test]
fn other_actors_resolve_alongside_the_player() {
    let mut world = world_with_seed(3);
    world.load_tile(TilePos::new(0, 0));
    world.load_tile_mut(TilePos::new(5, 6)).terrain = Terrain::Dirt;
    let character = Character::new("Zed", Gender::Male, 50, MainHand::Left, SkinTone::Golden);
    world.units.push(Avatar::zombie(character, Body::human(Freshness::Rotten), TilePos::new(5, 5)));
    world.units[1].action = Some(Action::new(1, ActionType::Walking(Direction::South), &world).unwrap());
    assert_eq!(8, world.units[1].action.unwrap().finish);
    world.player_mut().action = Some(Action::new(0, ActionType::SkippingTime, &world).unwrap());
    // the zombie's walk is due at tick 8; with the player skipping time one
    // tick at a time, the clock reaches it
    while world.meta.current_tick < 8 {
        assert_eq!(TilePos::new(5, 5), world.units[1].pos);
        if world.player().action.is_none() {
            world.player_mut().action = Some(Action::new(0, ActionType::SkippingTime, &world).unwrap());
        }
        world.tick();
    }
    assert_eq!(8, world.meta.current_tick);
    assert_eq!(TilePos::new(5, 5), world.units[1].pos);
    world.tick();
    assert_eq!(TilePos::new(5, 6), world.units[1].pos);
    assert!(world.units[1].action.is_none());
}

#[test]
fn wandering_brain_proposes_a_walk() {
    let mut brain = ZombieBrain::new();
    assert_eq!(Some(ActionType::SkippingTime), brain.action());
    for _ in 0..50 {
        brain.plan();
        match brain.action() {
            Some(ActionType::Walking(d)) => assert!(matches!(
                d,
                Direction::East | Direction::West | Direction::North | Direction::South | Direction::Here
            )),
            other => panic!("unexpected proposal {:?}", other),
        }
    }
    let mut seen = [false; 5];
    for roll in 0..5u32 {
        brain.plan_with(roll);
        let d = match brain.action() {
            Some(ActionType::Walking(d)) => d,
            _ => unreachable!(),
        };
        let k = match d {
            Direction::East => 0,
            Direction::West => 1,
            Direction::North => 2,
            Direction::South => 3,
            Direction::Here => 4,
            _ => unreachable!(),
        };
        assert_eq!(roll as usize, k);
        seen[k] = true;
    }
    assert!(seen.iter().all(|s| *s));
}

#[test]
fn actors_name_themselves_for_messages() {
    let c = Character::new("Eve", Gender::Female, 20, MainHand::Right, SkinTone::Sand);
    let player = Avatar::player(c, TilePos::new(0, 0));
    assert_eq!("You", player.name_for_actions());
    assert!(matches!(player.soul, Soul::Player));
    assert_eq!(2, player.body.wear.len());
    assert_eq!(100, player.stamina);
    let c = Character::new("Eve", Gender::Female, 20, MainHand::Right, SkinTone::Sand);
    let zombie = Avatar::zombie(c, Body::human(Freshness::Fresh), TilePos::new(2, 2));
    assert_eq!("Zombie Eve", zombie.name_for_actions());
}

#[test]
fn submitted_actions_are_committed_only_when_legal() {
    let mut world = world_with_seed(11);
    world.load_tile_mut(TilePos::new(1, 0)).terrain = Terrain::Boulder;
    assert_eq!(Err("You can't walk to the boulder".to_string()), world.submit(0, ActionType::Walking(Direction::East)));
    assert!(world.player().action.is_none());
    world.load_tile_mut(TilePos::new(1, 0)).terrain = Terrain::Dirt;
    world.meta.current_tick = 5;
    assert_eq!(Ok(()), world.submit(0, ActionType::Walking(Direction::East)));
    let a = world.player().action.unwrap();
    assert_eq!(0, a.owner);
    assert_eq!(ActionType::Walking(Direction::East), a.typ);
    assert_eq!(15, a.finish);
}

#[test]
fn idle_zombies_plan_walks_and_players_do_not() {
    let mut world = world_with_seed(11);
    world.load_tile(TilePos::new(0, 0));
    world.plan_actor(0);
    assert!(world.player().action.is_none());
    for (x, y) in [(4, 4), (4, 5), (5, 4), (3, 4), (4, 3)] {
        world.load_tile_mut(TilePos::new(x, y)).terrain = Terrain::Dirt;
    }
    let character = Character::new("Zed", Gender::Male, 50, MainHand::Left, SkinTone::Golden);
    world.units.push(Avatar::zombie(character, Body::human(Freshness::Rotten), TilePos::new(4, 4)));
    for _ in 0..20 {
        world.units[1].action = None;
        world.plan_actor(1);
        let proposal = match &world.units[1].soul {
            Soul::Zombie(b) => b.action,
            Soul::Player => unreachable!(),
        };
        match proposal {
            ActionType::Walking(Direction::Here) => assert!(world.units[1].action.is_none()),
            ActionType::Walking(d) => {
                let a = world.units[1].action.unwrap();
                assert_eq!(ActionType::Walking(d), a.typ);
                assert_eq!(1, a.owner);
                assert_eq!(8, a.finish);
            }
            other => panic!("unexpected proposal {:?}", other),
        }
    }
    world.units[1].action = Some(Action::new(1, ActionType::SkippingTime, &world).unwrap());
    let pending = world.units[1].action;
    world.plan_actor(1);
    assert_eq!(pending, world.units[1].action);
}

#[test]
fn terrain_comes_from_the_seeded_generator() {
    let seed: u64 = 2024;
    let mut world = world_with_seed(seed);
    for (x, y) in [(0i32, 0i32), (5, -7), (-40, 33), (1000, 1)] {
        let s = seed ^ (((x as u32 as u64) << 32) | (y as u32 as u64));
        let w = rand::rngs::StdRng::seed_from_u64(s).next_u64() % 100;
        let tile = world.load_tile(TilePos::new(x, y));
        let expected = if w < 70 { "Dirt" } else if w < 90 { "Grass" } else { "Boulder" };
        assert_eq!(expected, format!("{:?}", tile.terrain));
    }
}
