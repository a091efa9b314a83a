use village_siege::grid::{
    apply_direction, calculate_big_sprite_root_position, get_neighbours, grid_from_vec, opposite,
    pixel_loc_in_grid_bounds, random_direction, random_direction_with_diagonal, vec_from_grid,
    Direction, AREA, GRID_SIZE_X,
};
use village_siege::rng::Rng;

const ALL_DIRECTIONS: [Direction; 8] = [
    Direction::N,
    Direction::E,
    Direction::S,
    Direction::W,
    Direction::NE,
    Direction::SE,
    Direction::NW,
    Direction::SW,
];

#[test]
fn index_coordinate_round_trip() {
    for x in 0..30u8 {
        for y in 0..30u8 {
            let i = grid_from_vec(x, y);
            assert!(i < AREA as u16);
            assert_eq!(vec_from_grid(i), (x, y));
        }
    }
    assert_eq!(grid_from_vec(0, 0), 0);
    assert_eq!(grid_from_vec(29, 29), 899);
    assert_eq!(grid_from_vec(5, 2), 65);
}

#[test]
fn direction_round_trip_from_centre() {
    let i = grid_from_vec(15, 15);
    for dir in ALL_DIRECTIONS {
        let j = apply_direction(i, dir).expect("centre steps stay on the board");
        assert_eq!(apply_direction(j, opposite(dir)), Some(i));
    }
}

#[test]
fn direction_round_trip_everywhere() {
    for i in 0..AREA as u16 {
        for dir in ALL_DIRECTIONS {
            if let Some(j) = apply_direction(i, dir) {
                assert_eq!(apply_direction(j, opposite(dir)), Some(i));
            }
        }
    }
}

#[test]
fn directions_never_wrap() {
    // The right edge: stepping east must not wrap to the next row.
    let right_edge = grid_from_vec(29, 10);
    assert_eq!(apply_direction(right_edge, Direction::E), None);
    assert_eq!(apply_direction(right_edge, Direction::NE), None);
    assert_eq!(apply_direction(right_edge, Direction::SE), None);
    // The top-left corner.
    assert_eq!(apply_direction(0, Direction::N), None);
    assert_eq!(apply_direction(0, Direction::W), None);
    assert_eq!(apply_direction(0, Direction::NW), None);
    assert_eq!(apply_direction(0, Direction::S), Some(30));
    assert_eq!(apply_direction(0, Direction::E), Some(1));
    // The bottom-right corner.
    let last = grid_from_vec(29, 29);
    assert_eq!(apply_direction(last, Direction::S), None);
    assert_eq!(apply_direction(last, Direction::E), None);
    assert_eq!(apply_direction(last, Direction::NW), Some(grid_from_vec(28, 28)));
}

#[test]
fn neighbours_are_bounds_checked_per_neighbour() {
    // Order: S, SE, E, NE, N, NW, W, SW.
    let n = get_neighbours(0);
    assert_eq!(n[0], Some(30));
    assert_eq!(n[1], Some(31));
    assert_eq!(n[2], Some(1));
    assert_eq!(n[3], None);
    assert_eq!(n[4], None);
    assert_eq!(n[5], None);
    assert_eq!(n[6], None);
    assert_eq!(n[7], None);

    let c = grid_from_vec(15, 15);
    let n = get_neighbours(c);
    assert!(n.iter().all(|o| o.is_some()));
    assert_eq!(n[0], Some(c + 30));
    assert_eq!(n[4], Some(c - 30));
}

#[test]
fn big_sprite_root_position() {
    // Subcell 3 of a 2-wide footprint sits one cell right and one cell
    // below the root.
    let cursor = grid_from_vec(11, 11);
    assert_eq!(calculate_big_sprite_root_position(2, 3, cursor), (10, 10));
    assert_eq!(calculate_big_sprite_root_position(2, 0, cursor), (11, 11));
    // Subcell 4 of the 2x3 church is on the root column, two rows down.
    assert_eq!(calculate_big_sprite_root_position(2, 4, cursor), (11, 9));
}

#[test]
fn pixel_bounds_cover_the_walkable_area() {
    assert!(pixel_loc_in_grid_bounds(0, 0));
    assert!(pixel_loc_in_grid_bounds(289, 289));
    assert!(!pixel_loc_in_grid_bounds(290, 0));
    assert!(!pixel_loc_in_grid_bounds(0, 290));
    assert!(!pixel_loc_in_grid_bounds(-1, 5));
    let _ = GRID_SIZE_X;
}

#[test]
fn random_directions_are_deterministic_and_in_range() {
    let mut a = Rng::new(11);
    let mut b = Rng::new(11);
    for _ in 0..50 {
        assert_eq!(random_direction(&mut a), random_direction(&mut b));
    }
    // The cardinal draw never produces a diagonal.
    let mut rng = Rng::new(4);
    for _ in 0..200 {
        let d = random_direction(&mut rng);
        assert!(matches!(d, Direction::N | Direction::E | Direction::S | Direction::W));
    }
    let mut seen_diagonal = false;
    for _ in 0..200 {
        let d = random_direction_with_diagonal(&mut rng);
        seen_diagonal = seen_diagonal
            || matches!(d, Direction::NE | Direction::SE | Direction::NW | Direction::SW);
    }
    assert!(seen_diagonal);
}
