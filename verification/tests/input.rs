use village_siege::cell::{BuildingState, CellState};
use village_siege::grid::AREA;
use village_siege::input::{BUTTON_2, BUTTON_DOWN, BUTTON_RIGHT, BUTTON_UP};
use village_siege::particles::{Particle, MAX_PARTICLE_COUNT};
use village_siege::rng::Rng;
use village_siege::sim::{Game, PlayerState};
use village_siege::sound::Noise;

fn empty_board() -> Vec<CellState> {
    vec![CellState::Empty; AREA]
}

fn player(cursor: u16) -> PlayerState {
    PlayerState {
        emeralds: 10,
        cursor,
        old_gamepad: 0,
        new_gamepad: 0,
        cursor_timer: 0,
        camera_x: 0,
        camera_y: 0,
        button_held: false,
        action_possible: false,
        selected_class: 3,
    }
}

fn game_with(board: Vec<CellState>, p0: PlayerState) -> Game {
    Game {
        seed: 0,
        rng: Rng::new(0),
        tick: 0,
        players: vec![p0, player(0)],
        grid: board,
        entities: Vec::new(),
        particles: Vec::new(),
        cues: Vec::new(),
    }
}

#[test]
fn cursor_steps_one_cell_on_empty_ground() {
    let mut game = game_with(empty_board(), player(5 + 5 * 30));
    game.fetch_input(BUTTON_RIGHT, 0);
    assert_eq!(game.players[0].cursor, 6 + 5 * 30);
    game.players[0].cursor_timer = 0;
    game.fetch_input(BUTTON_DOWN, 0);
    assert_eq!(game.players[0].cursor, 6 + 6 * 30);
}

#[test]
fn cursor_steps_across_a_whole_house() {
    let mut board = empty_board();
    for k in 0..4u8 {
        let m = (10 + k as usize % 2) + (10 + k as usize / 2) * 30;
        board[m] = CellState::House(BuildingState::Solid, k);
    }
    // From the house's top-left subcell, a right press crosses both
    // columns of the footprint.
    let mut game = game_with(board, player(10 + 10 * 30));
    game.fetch_input(BUTTON_RIGHT, 0);
    assert_eq!(game.players[0].cursor, 12 + 10 * 30);
}

#[test]
fn cursor_clamps_at_the_board_edge() {
    let mut game = game_with(empty_board(), player(0));
    game.fetch_input(BUTTON_UP, 0);
    assert_eq!(game.players[0].cursor, 0);
}

#[test]
fn camera_drags_when_cursor_leaves_the_viewport() {
    // Camera at the origin shows columns 0..16; stepping to column 16
    // shifts the camera just far enough to keep the cursor visible.
    let mut game = game_with(empty_board(), player(15 + 5 * 30));
    game.fetch_input(BUTTON_RIGHT, 0);
    assert_eq!(game.players[0].cursor, 16 + 5 * 30);
    assert_eq!(game.players[0].camera_x, 1);
    assert_eq!(game.players[0].camera_y, 0);
}

#[test]
fn cursor_repeats_only_on_the_movement_cadence() {
    let mut game = game_with(empty_board(), player(5 + 5 * 30));
    // Seven held frames move once: only the frame with timer zero steps.
    for _ in 0..7 {
        game.fetch_input(BUTTON_RIGHT, 0);
    }
    assert_eq!(game.players[0].cursor, 6 + 5 * 30);
    // Releasing resets the cadence, so the next press moves at once.
    game.fetch_input(0, 0);
    game.fetch_input(BUTTON_RIGHT, 0);
    assert_eq!(game.players[0].cursor, 7 + 5 * 30);
}

#[test]
fn selection_cycles_on_press_edges_only() {
    let mut game = game_with(empty_board(), player(5 + 5 * 30));
    game.players[0].selected_class = 0;
    game.fetch_input(BUTTON_2, 0);
    assert_eq!(game.players[0].selected_class, 1);
    // Holding the button is not a new edge.
    game.fetch_input(BUTTON_2, 0);
    assert_eq!(game.players[0].selected_class, 1);
    // Release and press again.
    game.fetch_input(0, 0);
    game.fetch_input(BUTTON_2, 0);
    assert_eq!(game.players[0].selected_class, 2);
    assert_eq!(game.cues.iter().filter(|c| **c == Noise::TungTungTungSahour).count(), 2);
    // The selection wraps after the sixth slot.
    game.players[0].selected_class = 5;
    game.fetch_input(0, 0);
    game.fetch_input(BUTTON_2, 0);
    assert_eq!(game.players[0].selected_class, 0);
}

#[test]
fn explosion_burst_is_bounded_by_pool_capacity() {
    let mut board = empty_board();
    for k in 0..6u8 {
        let m = (10 + k as usize % 2) + (10 + k as usize / 2) * 30;
        board[m] = CellState::Church(BuildingState::Burning, k, 3);
    }
    let root = (10 + 10 * 30) as u16;
    let mut game = game_with(board, player(0));
    game.set_church_countdown(root, 1);
    // Pre-fill the pool close to capacity: the burst of twenty can only
    // grow it to capacity, evicting from there on.
    for _ in 0..295 {
        game.particles.push(Particle { x: 1, y: 1, life: 50, horizontal_velocity: 0 });
    }
    game.tick = 10;
    game.update();
    assert_eq!(game.particles.len(), MAX_PARTICLE_COUNT);
}
