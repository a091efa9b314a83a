use village_siege::cell::{BuildingState, CellState};
use village_siege::grid::AREA;
use village_siege::input::BUTTON_1;
use village_siege::particles::Particle;
use village_siege::rng::Rng;
use village_siege::sim::{pick_random_location_building_outline, Game, PlayerState};
use village_siege::sound::Noise;

fn empty_board() -> Vec<CellState> {
    vec![CellState::Empty; AREA]
}

fn place_house(board: &mut Vec<CellState>, x: u16, y: u16) -> u16 {
    let root = x + y * 30;
    for k in 0..4u8 {
        let m = (x + k as u16 % 2) + (y + k as u16 / 2) * 30;
        board[m as usize] = CellState::House(BuildingState::Solid, k);
    }
    root
}

fn place_church(board: &mut Vec<CellState>, x: u16, y: u16, countdown: u8) -> u16 {
    let root = x + y * 30;
    for k in 0..6u8 {
        let m = (x + k as u16 % 2) + (y + k as u16 / 2) * 30;
        board[m as usize] = CellState::Church(BuildingState::Solid, k, countdown);
    }
    root
}

fn player(emeralds: u8, cursor: u16, selected_class: u8) -> PlayerState {
    PlayerState {
        emeralds,
        cursor,
        old_gamepad: 0,
        new_gamepad: 0,
        cursor_timer: 1,
        camera_x: 0,
        camera_y: 0,
        button_held: false,
        action_possible: false,
        selected_class,
    }
}

fn game_with(board: Vec<CellState>, p0: PlayerState, p1: PlayerState) -> Game {
    Game {
        seed: 0,
        rng: Rng::new(0),
        tick: 0,
        players: vec![p0, p1],
        grid: board,
        entities: Vec::new(),
        particles: Vec::new(),
        cues: Vec::new(),
    }
}

#[test]
fn outline_search_avoids_the_footprint() {
    // A 2x2 house on an otherwise empty board; subcell 0 is the root.
    let mut board = empty_board();
    let root = place_house(&mut board, 10, 10);
    let footprint = [root, root + 1, root + 30, root + 31];

    for seed in 0..50u64 {
        let mut rng = Rng::new(seed);
        let c = pick_random_location_building_outline(&board, 2, 2, 0, root, &mut rng)
            .expect("the ring around the house is fully empty");
        assert!(!footprint.contains(&c));
        assert_eq!(board[c as usize], CellState::Empty);
        let (cx, cy) = (c % 30, c / 30);
        assert!((9..=12).contains(&cx));
        assert!((9..=12).contains(&cy));
    }
}

#[test]
fn outline_search_from_inner_subcell() {
    // The same house addressed through its bottom-right subcell.
    let mut board = empty_board();
    let root = place_house(&mut board, 10, 10);
    let cursor = root + 31;
    let mut rng = Rng::new(3);
    let c = pick_random_location_building_outline(&board, 2, 2, 3, cursor, &mut rng)
        .expect("the ring is empty");
    assert!(![root, root + 1, root + 30, root + 31].contains(&c));
    assert_eq!(board[c as usize], CellState::Empty);
}

#[test]
fn outline_search_full_ring_returns_none() {
    let mut board = empty_board();
    let root = place_house(&mut board, 10, 10);
    // Occupy the whole surrounding ring with rocks.
    for x in 9..=12u16 {
        for y in 9..=12u16 {
            let m = (x + y * 30) as usize;
            if board[m] == CellState::Empty {
                board[m] = CellState::Rock;
            }
        }
    }
    let mut rng = Rng::new(1);
    assert_eq!(
        pick_random_location_building_outline(&board, 2, 2, 0, root, &mut rng),
        None
    );
}

#[test]
fn church_explosion_destroys_and_bursts() {
    // A church subcell burning with countdown one: the explosion frame
    // destroys it and emits exactly twenty debris particles.
    let mut board = empty_board();
    let root = place_church(&mut board, 10, 10, 3);
    let mut game = game_with(board, player(0, 0, 0), player(0, 0, 0));
    game.set_condition(root, BuildingState::Burning);
    game.set_church_countdown(root, 1);
    game.tick = 10;  // the explosion cadence frame

    game.update();
    assert_eq!(game.particles.len(), 20);
    assert_eq!(game.grid[root as usize], CellState::Church(BuildingState::Destroyed, 0, 0));
    assert!(game.cues.contains(&Noise::KaboomNoise));

    // Destruction is terminal: another frame changes nothing.
    game.update();
    assert_eq!(game.grid[root as usize], CellState::Church(BuildingState::Destroyed, 0, 0));
    assert_eq!(game.particles.len(), 20);
}

#[test]
fn burning_church_counts_down_only_on_cadence() {
    let mut board = empty_board();
    let root = place_church(&mut board, 10, 10, 3);
    let mut game = game_with(board, player(0, 0, 0), player(0, 0, 0));
    game.set_condition(root, BuildingState::Burning);

    game.tick = 0;  // not the cadence frame
    game.update();
    assert_eq!(game.grid[root as usize], CellState::Church(BuildingState::Burning, 0, 3));

    game.tick = 10;
    game.update();
    assert_eq!(game.grid[root as usize], CellState::Church(BuildingState::Burning, 0, 2));
    assert!(game.cues.contains(&Noise::TungTungTungSahour));
    assert!(game.particles.is_empty());
}

#[test]
fn solid_buildings_are_inert() {
    let mut board = empty_board();
    let root = place_church(&mut board, 10, 10, 3);
    let house = place_house(&mut board, 20, 20);
    let mut game = game_with(board, player(0, 0, 0), player(0, 0, 0));
    let before = game.grid.clone();
    game.tick = 10;
    game.update();
    assert_eq!(game.grid, before);
    let _ = (root, house);
}

#[test]
fn unaffordable_summon_changes_nothing() {
    // Currency two, price three: the affordance flag refuses, and the
    // attempt leaves currency, board and entity list untouched.
    let mut board = empty_board();
    let root = place_house(&mut board, 10, 10);
    let board_before = board.clone();
    // Class slot 2 (the smith) costs three.
    let mut game = game_with(board, player(2, root, 2), player(0, 0, 0));

    game.action_possible();
    assert!(!game.players[0].action_possible);

    game.fetch_input(BUTTON_1, 0);
    assert_eq!(game.players[0].emeralds, 2);
    assert!(game.entities.is_empty());
    assert_eq!(game.grid, board_before);
}

#[test]
fn checked_sub_aborts_a_stale_confirm() {
    // The affordance flag is computed before input; cycling the class in
    // the same frame as the confirm press can leave the price above the
    // purse, and the checked subtraction aborts the whole transaction.
    let mut board = empty_board();
    let root = place_house(&mut board, 10, 10);
    let board_before = board.clone();
    // Slot 1 (price two) is affordable with two emeralds...
    let mut game = game_with(board, player(2, root, 1), player(0, 0, 0));
    game.action_possible();
    assert!(game.players[0].action_possible);

    // ...but the same frame cycles to slot 2 (price three).
    game.fetch_input(BUTTON_1 | village_siege::input::BUTTON_2, 0);
    assert_eq!(game.players[0].selected_class, 2);
    assert_eq!(game.players[0].emeralds, 2);
    assert!(game.entities.is_empty());
    assert_eq!(game.grid, board_before);
}

#[test]
fn burning_building_is_no_spawn_site() {
    // Only a completed building affords a villager summon.
    let mut board = empty_board();
    let root = place_house(&mut board, 10, 10);
    let mut game = game_with(board, player(10, root, 0), player(0, 0, 0));
    game.set_condition(root, BuildingState::Burning);
    game.action_possible();
    assert!(!game.players[0].action_possible);

    game.fetch_input(BUTTON_1, 0);
    assert_eq!(game.players[0].emeralds, 10);
    assert!(game.entities.is_empty());
}

#[test]
fn affordable_summon_spends_and_spawns() {
    let mut board = empty_board();
    let root = place_house(&mut board, 10, 10);
    // Class slot 0 (the villager) costs one.
    let mut game = game_with(board, player(5, root, 0), player(0, 0, 0));

    game.action_possible();
    assert!(game.players[0].action_possible);

    game.fetch_input(BUTTON_1, 0);
    assert_eq!(game.players[0].emeralds, 4);
    assert_eq!(game.entities.len(), 1);
    let e = &game.entities[0];
    // The spawn cell is on the ring around the house, in pixels.
    let cell = (e.position_x / 10) + (e.position_y / 10) * 30;
    assert!(![root, root + 1, root + 30, root + 31].contains(&cell));
    assert!((9..=12).contains(&(cell % 30)));
    assert!((9..=12).contains(&(cell / 30)));
    assert_eq!(*game.cues.last().unwrap(), Noise::Ting);
}

#[test]
fn illager_summons_on_empty_border_cell() {
    let board = empty_board();
    // Cursor on the border, top row.
    let mut game = game_with(board, player(0, 0, 5), player(10, 5, 0));

    game.action_possible();
    assert!(game.players[1].action_possible);

    game.fetch_input(0, BUTTON_1);
    assert_eq!(game.players[1].emeralds, 9);
    assert_eq!(game.entities.len(), 1);
    assert_eq!(game.entities[0].position_x, 50);
    assert_eq!(game.entities[0].position_y, 0);
}

#[test]
fn illager_cannot_summon_off_border() {
    let board = empty_board();
    // An empty cell in the interior is not a legal illager spawn.
    let mut game = game_with(board, player(0, 0, 5), player(10, 5 + 5 * 30, 0));
    game.action_possible();
    assert!(!game.players[1].action_possible);

    game.fetch_input(0, BUTTON_1);
    assert_eq!(game.players[1].emeralds, 10);
    assert!(game.entities.is_empty());
}

#[test]
fn entity_drift_is_bounded_and_collision_checked() {
    let board = empty_board();
    let mut game = game_with(board, player(0, 0, 0), player(0, 0, 0));
    game.entities.push(village_siege::entity::Entity {
        entity_type: village_siege::entity::EntityType::VillagerClan(
            village_siege::entity::VillagerClan::Villager,
        ),
        position_x: 150,
        position_y: 150,
    });
    let (mut px, mut py) = (150u16, 150u16);
    for _ in 0..50 {
        game.update();
        let e = &game.entities[0];
        assert!((e.position_x as i32 - px as i32).abs() <= 4);
        assert!((e.position_y as i32 - py as i32).abs() <= 4);
        assert!(e.position_x < 290 && e.position_y < 290);
        px = e.position_x;
        py = e.position_y;
    }
}

#[test]
fn smoke_rises_from_burning_house_roots() {
    let mut board = empty_board();
    let root = place_house(&mut board, 10, 10);
    let mut game = game_with(board, player(0, 0, 0), player(0, 0, 0));
    game.set_condition(root, BuildingState::Burning);
    game.update_particles();
    // Three smoke particles from the one burning root subcell; the
    // other subcells of the house are still solid.
    assert_eq!(game.particles.len(), 3);
    for p in &game.particles {
        assert!(p.life >= 1);
        assert!(p.x < 300 && p.y < 300);
    }
    // The pool comes back ordered by remaining lifetime.
    for w in game.particles.windows(2) {
        assert!(w[0].life <= w[1].life);
    }
}

#[test]
fn particle_advance_culls_spent_particles() {
    let board = empty_board();
    let mut game = game_with(board, player(0, 0, 0), player(0, 0, 0));
    game.particles.push(Particle { x: 100, y: 100, life: 1, horizontal_velocity: 0 });
    game.particles.push(Particle { x: 100, y: 120, life: 10, horizontal_velocity: 0 });
    game.update_particles();
    // The life-one particle decays to zero and is culled.
    assert_eq!(game.particles.len(), 1);
    assert_eq!(game.particles[0].life, 9);
    assert_eq!(game.particles[0].y, 119);
}

#[test]
fn remove_entity_is_an_external_capability() {
    let board = empty_board();
    let mut game = game_with(board, player(0, 0, 0), player(0, 0, 0));
    let villager = village_siege::entity::Entity {
        entity_type: village_siege::entity::EntityType::VillagerClan(
            village_siege::entity::VillagerClan::Villager,
        ),
        position_x: 10,
        position_y: 20,
    };
    let farmer = village_siege::entity::Entity {
        entity_type: village_siege::entity::EntityType::VillagerClan(
            village_siege::entity::VillagerClan::Farmer,
        ),
        position_x: 30,
        position_y: 40,
    };
    game.entities.push(villager);
    game.entities.push(farmer);
    let removed = game.remove_entity(0);
    assert_eq!(removed, villager);
    assert_eq!(game.entities.len(), 1);
    assert_eq!(game.entities[0], farmer);
}

#[test]
fn new_game_is_seeded_and_centred() {
    let game = Game::new(42, 0, 0);
    assert_eq!(game.seed, 42);
    assert_eq!(game.players[0].emeralds, 200);
    assert_eq!(game.players[1].emeralds, 100);
    assert_eq!(game.players[0].cursor, 15 + 15 * 30);
    assert_eq!(game.players[1].cursor, 0);
    // The generated board matches a bare generator run on the same seed.
    let mut rng = Rng::new(42);
    let board = village_siege::terrain::generate(&mut rng);
    assert_eq!(game.grid, board);
}

#[test]
fn run_advances_the_frame_counter() {
    let mut game = Game::new(7, 0, 0);
    for frame in 0..120u32 {
        assert_eq!(game.tick as u32, frame % 60);
        game.run(0, 0);
    }
}
