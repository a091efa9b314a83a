use village_siege::cell::CellState;
use village_siege::grid::{AREA, GRID_SIZE_X, GRID_SIZE_Y};
use village_siege::rng::Rng;
use village_siege::terrain::{dist, feature_cell, generate, spawn_building, FeatureKind};

fn footprint_dims(c: &CellState) -> (u16, u16) {
    match c {
        CellState::Empty => (1, 1),
        CellState::House(_, _) => (2, 2),
        CellState::House2(_, _) => (2, 2),
        CellState::BigRock(_) => (2, 2),
        CellState::Rock => (1, 1),
        CellState::Lamppost(_) => (1, 2),
        CellState::Bell => (1, 1),
        CellState::Tree(_) => (2, 2),
        CellState::Stand(_) => (2, 2),
        CellState::Church(_, _, _) => (2, 3),
        CellState::Farm(_) => (2, 1),
        CellState::Hay(_) => (2, 1),
    }
}

fn subcell(c: &CellState) -> u16 {
    match c {
        CellState::Empty | CellState::Rock | CellState::Bell => 0,
        CellState::House(_, j)
        | CellState::House2(_, j)
        | CellState::BigRock(j)
        | CellState::Lamppost(j)
        | CellState::Tree(j)
        | CellState::Stand(j)
        | CellState::Church(_, j, _)
        | CellState::Farm(j)
        | CellState::Hay(j) => *j as u16,
    }
}

fn tag(c: &CellState) -> u8 {
    match c {
        CellState::Empty => 0,
        CellState::House(_, _) => 1,
        CellState::House2(_, _) => 2,
        CellState::BigRock(_) => 3,
        CellState::Rock => 4,
        CellState::Lamppost(_) => 5,
        CellState::Bell => 6,
        CellState::Tree(_) => 7,
        CellState::Stand(_) => 8,
        CellState::Church(_, _, _) => 9,
        CellState::Farm(_) => 10,
        CellState::Hay(_) => 11,
    }
}

#[test]
fn generation_is_deterministic() {
    let mut rng_a = Rng::new(42);
    let mut rng_b = Rng::new(42);
    let board_a = generate(&mut rng_a);
    let board_b = generate(&mut rng_b);
    assert_eq!(board_a, board_b);
}

#[test]
fn seed_42_cell_counts() {
    let mut rng = Rng::new(42);
    let board = generate(&mut rng);
    let count = |t: u8| board.iter().filter(|c| tag(c) == t).count();
    assert_eq!(count(1), 4, "house cells");
    assert_eq!(count(2), 8, "second house cells");
    assert_eq!(count(9), 18, "church cells");
    assert_eq!(count(3), 48, "big rock cells");
    assert_eq!(count(7), 124, "tree cells");
    assert_eq!(count(4), 22, "rock cells");
    assert_eq!(count(6), 2, "bell cells");
    assert_eq!(count(11), 6, "hay cells");
    assert_eq!(count(10), 12, "farm cells");
    assert_eq!(count(5), 6, "lamppost cells");
    assert_eq!(count(0), 650, "empty cells");
}

#[test]
fn generated_footprints_are_consistent_and_contained() {
    let mut rng = Rng::new(42);
    let board = generate(&mut rng);
    assert_eq!(board.len(), AREA);
    for i in 0..AREA {
        let c = &board[i];
        if tag(c) == 0 {
            continue;
        }
        let (w, h) = footprint_dims(c);
        let j = subcell(c);
        assert!(j < w * h);
        let x = i as u16 % GRID_SIZE_X as u16;
        let y = i as u16 / GRID_SIZE_X as u16;
        // The root derived from the subcell index lies on the board and
        // the whole footprint fits.
        let rx = x - j % w;
        let ry = y - j / w;
        assert!(rx + w <= GRID_SIZE_X as u16);
        assert!(ry + h <= GRID_SIZE_Y as u16);
        // Every member of the footprint carries the same variant and its
        // own row-major subcell index: no other feature overlaps it.
        for k in 0..w * h {
            let m = (rx + k % w) + (ry + k / w) * GRID_SIZE_X as u16;
            assert!((m as usize) < AREA);
            assert_eq!(tag(&board[m as usize]), tag(c));
            assert_eq!(subcell(&board[m as usize]), k);
        }
    }
}

#[test]
fn spawn_building_places_a_full_footprint() {
    let mut grid = vec![CellState::Empty; AREA];
    let ok = spawn_building(10 + 10 * 30, &mut grid, 2, 3, FeatureKind::Church);
    assert!(ok);
    for k in 0..6u8 {
        let m = (10 + k as usize % 2) + (10 + k as usize / 2) * 30;
        assert_eq!(grid[m], feature_cell(FeatureKind::Church, k));
    }
    let occupied = grid.iter().filter(|c| tag(c) != 0).count();
    assert_eq!(occupied, 6);
}

#[test]
fn spawn_building_rejects_overlap() {
    let mut grid = vec![CellState::Empty; AREA];
    assert!(spawn_building(0, &mut grid, 2, 2, FeatureKind::House));
    let before = grid.clone();
    // The second footprint would cover cell 31, which is occupied.
    assert!(!spawn_building(31, &mut grid, 2, 2, FeatureKind::Tree));
    assert_eq!(grid, before);
}

#[test]
fn spawn_building_rejects_edge_overhang() {
    let mut grid = vec![CellState::Empty; AREA];
    // Rooted on the last column, a two-wide footprint would overhang.
    assert!(!spawn_building(29, &mut grid, 2, 2, FeatureKind::House));
    assert!(grid.iter().all(|c| tag(c) == 0));
    // On the bottom row, a two-tall footprint would overhang.
    assert!(!spawn_building(29 * 30, &mut grid, 2, 2, FeatureKind::House));
    assert!(grid.iter().all(|c| tag(c) == 0));
}

#[test]
fn dist_is_doubled_chebyshev() {
    assert_eq!(dist(15, 15, 15, 15), 0);
    assert_eq!(dist(16, 15, 15, 15), 2);
    assert_eq!(dist(13, 18, 15, 15), 6);
    assert_eq!(dist(0, 0, 15, 15), 30);
    assert_eq!(dist(20, 10, 15, 15), 10);
}

#[test]
fn feature_cells_carry_their_subcell() {
    assert_eq!(
        feature_cell(FeatureKind::House, 3),
        CellState::House(village_siege::cell::BuildingState::Solid, 3)
    );
    assert_eq!(feature_cell(FeatureKind::Rock, 0), CellState::Rock);
    assert_eq!(feature_cell(FeatureKind::Tree, 2), CellState::Tree(2));
    assert!(matches!(
        feature_cell(FeatureKind::Church, 5),
        CellState::Church(village_siege::cell::BuildingState::Solid, 5, _)
    ));
}
