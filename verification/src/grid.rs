//! Grid coordinate math: index/coordinate conversion, the eight compass
//! directions, bounds checks and footprint root computation.
//!
//! The board is a fixed 30x30 grid stored row-major: `index = x + y * 30`.
//! No direction ever wraps across the board edge; every bounds violation is
//! reported as `None` at the point of computation.

use vstd::prelude::*;

verus! {

/// Width of the board in cells.
pub const GRID_SIZE_X: u8 = 30;

/// Height of the board in cells.
pub const GRID_SIZE_Y: u8 = 30;

/// Side length of one grid cell in pixels.
pub const CELL_SIZE: u8 = 10;

/// Number of cells on the board (30 * 30).
pub const AREA: usize = 900;

/// Width of the visible viewport in cells.
pub const GRID_LOCAL_SIZE_X: u8 = 16;

/// Height of the visible viewport in cells.
pub const GRID_LOCAL_SIZE_Y: u8 = 12;

/// The eight compass directions an index can be stepped in.
#[derive(Clone, Copy, PartialEq, Eq, Structural, Debug)]
pub enum Direction {
    N,
    E,
    S,
    W,
    NE,
    SE,
    NW,
    SW,
}

/// Column of a row-major board index.
pub open spec fn x_of(i: int) -> int {
    i % (GRID_SIZE_X as int)
}

/// Row of a row-major board index.
pub open spec fn y_of(i: int) -> int {
    i / (GRID_SIZE_X as int)
}

/// Row-major board index of a coordinate pair.
pub open spec fn idx_of(x: int, y: int) -> int {
    x + y * (GRID_SIZE_X as int)
}

/// The (dx, dy) offset of one step in a direction.
pub open spec fn direction_offset(dir: Direction) -> (int, int) {
    match dir {
        Direction::N => (0, -1),
        Direction::E => (1, 0),
        Direction::S => (0, 1),
        Direction::W => (-1, 0),
        Direction::NE => (1, -1),
        Direction::SE => (1, 1),
        Direction::NW => (-1, -1),
        Direction::SW => (-1, 1),
    }
}

/// Result of stepping an in-bounds index one cell in a direction:
/// the new index, or `None` when the step would leave the board.
pub open spec fn spec_apply_direction(i: int, dir: Direction) -> Option<int> {
    let (dx, dy) = direction_offset(dir);
    let nx = x_of(i) + dx;
    let ny = y_of(i) + dy;
    if 0 <= nx < GRID_SIZE_X as int && 0 <= ny < GRID_SIZE_Y as int {
        Some(idx_of(nx, ny))
    } else {
        None
    }
}

/// The direction pointing the opposite way.
pub open spec fn spec_opposite(dir: Direction) -> Direction {
    match dir {
        Direction::N => Direction::S,
        Direction::E => Direction::W,
        Direction::S => Direction::N,
        Direction::W => Direction::E,
        Direction::NE => Direction::SW,
        Direction::SE => Direction::NW,
        Direction::NW => Direction::SE,
        Direction::SW => Direction::NE,
    }
}

/// Convert local coordinates to a board index.
pub fn grid_from_vec(x: u8, y: u8) -> (index: u16)
    requires
        x < GRID_SIZE_X,
        y < GRID_SIZE_Y,
    ensures
        index == idx_of(x as int, y as int),
        index < AREA,
{
    x as u16 + y as u16 * (GRID_SIZE_X as u16)
}

/// Convert a board index to local coordinates.
pub fn vec_from_grid(index: u16) -> (r: (u8, u8))
    requires
        index < AREA,
    ensures
        r.0 == x_of(index as int),
        r.1 == y_of(index as int),
        r.0 < GRID_SIZE_X,
        r.1 < GRID_SIZE_Y,
{
    let x = index % (GRID_SIZE_X as u16);
    let y = index / (GRID_SIZE_X as u16);
    assert(index as int / 30 < 30) by (nonlinear_arith)
        requires
            index < 900,
    ;
    (x as u8, y as u8)
}

/// Check whether a pixel location lies inside the walkable board area.
pub fn pixel_loc_in_grid_bounds(x: i16, y: i16) -> (r: bool)
    ensures
        r == (0 <= x < CELL_SIZE as int * (GRID_SIZE_X as int - 1) && 0 <= y < CELL_SIZE as int
            * (GRID_SIZE_Y as int - 1)),
{
    let x_ok = x >= 0 && x < CELL_SIZE as i16 * (GRID_SIZE_X as i16 - 1);
    let y_ok = y >= 0 && y < CELL_SIZE as i16 * (GRID_SIZE_Y as i16 - 1);
    x_ok && y_ok
}

/// Step an index one cell in a direction, returning `None` instead of
/// wrapping when the step would cross the board edge.
pub fn apply_direction(index: u16, dir: Direction) -> (r: Option<u16>)
    requires
        index < AREA,
    ensures
        r matches Some(j) ==> spec_apply_direction(index as int, dir) == Some(j as int) && j < AREA,
        r is None ==> spec_apply_direction(index as int, dir) is None,
{
    let (x, y) = vec_from_grid(index);
    let (x, y): (i8, i8) = (x as i8, y as i8);

    let offset: (i8, i8) = match dir {
        Direction::N => (0, -1),
        Direction::E => (1, 0),
        Direction::S => (0, 1),
        Direction::W => (-1, 0),
        Direction::NE => (1, -1),
        Direction::SE => (1, 1),
        Direction::NW => (-1, -1),
        Direction::SW => (-1, 1),
    };

    let nx = x + offset.0;
    let ny = y + offset.1;

    if 0 <= nx && nx < GRID_SIZE_X as i8 && 0 <= ny && ny < GRID_SIZE_Y as i8 {
        Some(grid_from_vec(nx as u8, ny as u8))
    } else {
        None
    }
}

/// The direction pointing the opposite way.
pub fn opposite(dir: Direction) -> (r: Direction)
    ensures
        r == spec_opposite(dir),
{
    match dir {
        Direction::N => Direction::S,
        Direction::E => Direction::W,
        Direction::S => Direction::N,
        Direction::W => Direction::E,
        Direction::NE => Direction::SW,
        Direction::SE => Direction::NW,
        Direction::NW => Direction::SE,
        Direction::SW => Direction::NE,
    }
}

/// Stepping in a direction and then in the opposite direction returns to
/// the starting index whenever the first step stays on the board.
pub proof fn lemma_direction_round_trip(i: int, dir: Direction)
    requires
        0 <= i < AREA,
        spec_apply_direction(i, dir) is Some,
    ensures
        spec_apply_direction(spec_apply_direction(i, dir)->Some_0, spec_opposite(dir)) == Some(i),
{
    let j = spec_apply_direction(i, dir)->Some_0;
    let (dx, dy) = direction_offset(dir);
    assert(j == idx_of(x_of(i) + dx, y_of(i) + dy));
    assert(x_of(j) == x_of(i) + dx && y_of(j) == y_of(i) + dy) by {
        lemma_idx_coords(x_of(i) + dx, y_of(i) + dy);
    };
    assert(idx_of(x_of(i), y_of(i)) == i);
}

/// Round trip between a coordinate pair and its row-major index.
pub proof fn lemma_idx_coords(x: int, y: int)
    requires
        0 <= x < GRID_SIZE_X as int,
        0 <= y < GRID_SIZE_Y as int,
    ensures
        x_of(idx_of(x, y)) == x,
        y_of(idx_of(x, y)) == y,
        0 <= idx_of(x, y) < AREA,
{
}

/// The eight neighbouring indices of a cell, each `None` when the step in
/// that direction would leave the board. Order: S, SE, E, NE, N, NW, W, SW.
pub fn get_neighbours(index: u16) -> (r: [Option<u16>; 8])
    requires
        index < AREA,
    ensures
        forall|k: int|
            0 <= k < 8 ==> #[trigger] spec_neighbour(index as int, k) == (match r[k] {
                Some(j) => Some(j as int),
                None => None,
            }),
{
    let r = [
        apply_direction(index, Direction::S),
        apply_direction(index, Direction::SE),
        apply_direction(index, Direction::E),
        apply_direction(index, Direction::NE),
        apply_direction(index, Direction::N),
        apply_direction(index, Direction::NW),
        apply_direction(index, Direction::W),
        apply_direction(index, Direction::SW),
    ];
    r
}

/// Direction of the k-th entry of `get_neighbours`.
pub open spec fn neighbour_order(k: int) -> Direction {
    if k == 0 {
        Direction::S
    } else if k == 1 {
        Direction::SE
    } else if k == 2 {
        Direction::E
    } else if k == 3 {
        Direction::NE
    } else if k == 4 {
        Direction::N
    } else if k == 5 {
        Direction::NW
    } else if k == 6 {
        Direction::W
    } else {
        Direction::SW
    }
}

/// The k-th neighbour of an index, in the order used by `get_neighbours`.
pub open spec fn spec_neighbour(i: int, k: int) -> Option<int> {
    spec_apply_direction(i, neighbour_order(k))
}

/// The direction with a given ordinal: the four cardinal directions
/// first, then the four diagonals.
pub open spec fn direction_of_ordinal(k: int) -> Direction {
    if k == 0 {
        Direction::N
    } else if k == 1 {
        Direction::E
    } else if k == 2 {
        Direction::S
    } else if k == 3 {
        Direction::W
    } else if k == 4 {
        Direction::NE
    } else if k == 5 {
        Direction::SE
    } else if k == 6 {
        Direction::NW
    } else {
        Direction::SW
    }
}

/// Draw one of the four cardinal directions uniformly at random, by a
/// bounds-checked match on a small draw — never by reinterpreting a raw
/// integer as an enum.
pub fn random_direction(rng: &mut crate::rng::Rng) -> (r: Direction)
    ensures
        ({
            let (s2, m) = crate::rng::lemire_u32(
                old(rng).0,
                4,
                crate::rng::LEMIRE_RETRY_BUDGET as nat,
            );
            final(rng).0 == s2 && r == direction_of_ordinal(m as int)
        }),
{
    let k = rng.gen_mod_u32(4);
    match k {
        0 => Direction::N,
        1 => Direction::E,
        2 => Direction::S,
        _ => Direction::W,
    }
}

/// Draw one of all eight directions uniformly at random.
pub fn random_direction_with_diagonal(rng: &mut crate::rng::Rng) -> (r: Direction)
    ensures
        ({
            let (s2, m) = crate::rng::lemire_u32(
                old(rng).0,
                8,
                crate::rng::LEMIRE_RETRY_BUDGET as nat,
            );
            final(rng).0 == s2 && r == direction_of_ordinal(m as int)
        }),
{
    let k = rng.gen_mod_u32(8);
    match k {
        0 => Direction::N,
        1 => Direction::E,
        2 => Direction::S,
        3 => Direction::W,
        4 => Direction::NE,
        5 => Direction::SE,
        6 => Direction::NW,
        _ => Direction::SW,
    }
}

/// Root (top-left) coordinates of the footprint that a subcell belongs to,
/// derived from the subcell index and the footprint width.
pub fn calculate_big_sprite_root_position(
    building_bigsprite_width: u8,
    big_sprite_subcell_index: u8,
    cursor_grid_pos: u16,
) -> (r: (u8, u8))
    requires
        building_bigsprite_width >= 1,
        cursor_grid_pos < AREA,
        big_sprite_subcell_index as int % building_bigsprite_width as int <= x_of(
            cursor_grid_pos as int,
        ),
        big_sprite_subcell_index as int / building_bigsprite_width as int <= y_of(
            cursor_grid_pos as int,
        ),
    ensures
        r.0 == x_of(cursor_grid_pos as int) - big_sprite_subcell_index as int
            % building_bigsprite_width as int,
        r.1 == y_of(cursor_grid_pos as int) - big_sprite_subcell_index as int
            / building_bigsprite_width as int,
{
    let j = big_sprite_subcell_index;
    let (a, b) = vec_from_grid(cursor_grid_pos);

    let cursor_offset_in_bigsprite_x = j % building_bigsprite_width;
    let cursor_offset_in_bigsprite_y = j / building_bigsprite_width;

    let building_root_x = a - cursor_offset_in_bigsprite_x;
    let building_root_y = b - cursor_offset_in_bigsprite_y;

    (building_root_x, building_root_y)
}

} // verus!
