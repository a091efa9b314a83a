//! Procedural terrain generation.
//!
//! An ordered table of feature kinds is resolved front to back: important
//! structures claim central cells first, decor fills the periphery
//! afterwards. Each feature repeats a bounded number of placement
//! attempts: draw a candidate from the feature's spawn rectangle, thin it
//! through the feature's probability gate, then place the footprint only
//! where it fits entirely on the board and every covered cell is empty.
//! A failed candidate is skipped silently; generation never fails, it
//! only produces a sparser board.

use vstd::prelude::*;
use crate::cell::{
    BuildingState, CellState, board_wf, cell_wf_at, footprint_height, footprint_placed,
    footprint_width, lemma_subcell_roundtrip, subcell_index, variant_tag,
};
use crate::grid::{
    AREA, GRID_SIZE_X, GRID_SIZE_Y, grid_from_vec, idx_of, lemma_idx_coords, vec_from_grid, x_of,
    y_of,
};
use crate::rng::{LEMIRE_RETRY_BUDGET, Rng, lemire_u32, rng_mix, rng_next};

verus! {

/// Upper bound on candidate draws per feature kind.
pub const MAX_SPAWN_ATTEMPTS: usize = 1000;

/// Combustion countdown a church starts with when generated.
pub const CHURCH_COUNTDOWN_START: u8 = 3;

/// The terrain feature kinds, in generation priority order.
#[derive(Clone, Copy, PartialEq, Eq, Structural, Debug)]
pub enum FeatureKind {
    House,
    House2,
    Church,
    BigRock,
    Tree,
    Rock,
    Bell,
    Hay,
    Farm,
    Lamppost,
}

/// Footprint width of a feature kind in cells.
pub open spec fn feature_width(kind: FeatureKind) -> int {
    match kind {
        FeatureKind::House => 2,
        FeatureKind::House2 => 2,
        FeatureKind::Church => 2,
        FeatureKind::BigRock => 2,
        FeatureKind::Tree => 2,
        FeatureKind::Rock => 1,
        FeatureKind::Bell => 1,
        FeatureKind::Hay => 2,
        FeatureKind::Farm => 2,
        FeatureKind::Lamppost => 1,
    }
}

/// Footprint height of a feature kind in cells.
pub open spec fn feature_height(kind: FeatureKind) -> int {
    match kind {
        FeatureKind::House => 2,
        FeatureKind::House2 => 2,
        FeatureKind::Church => 3,
        FeatureKind::BigRock => 2,
        FeatureKind::Tree => 2,
        FeatureKind::Rock => 1,
        FeatureKind::Bell => 1,
        FeatureKind::Hay => 1,
        FeatureKind::Farm => 1,
        FeatureKind::Lamppost => 2,
    }
}

/// Cell constructed for subcell `j` of a feature's footprint.
pub open spec fn spec_feature_cell(kind: FeatureKind, j: u8) -> CellState {
    match kind {
        FeatureKind::House => CellState::House(BuildingState::Solid, j),
        FeatureKind::House2 => CellState::House2(BuildingState::Solid, j),
        FeatureKind::Church => CellState::Church(BuildingState::Solid, j, CHURCH_COUNTDOWN_START),
        FeatureKind::BigRock => CellState::BigRock(j),
        FeatureKind::Tree => CellState::Tree(j),
        FeatureKind::Rock => CellState::Rock,
        FeatureKind::Bell => CellState::Bell,
        FeatureKind::Hay => CellState::Hay(j),
        FeatureKind::Farm => CellState::Farm(j),
        FeatureKind::Lamppost => CellState::Lamppost(j),
    }
}

/// Footprint dimensions of a feature kind.
pub fn feature_dimensions(kind: FeatureKind) -> (r: (u8, u8))
    ensures
        r.0 as int == feature_width(kind),
        r.1 as int == feature_height(kind),
{
    match kind {
        FeatureKind::House => (2, 2),
        FeatureKind::House2 => (2, 2),
        FeatureKind::Church => (2, 3),
        FeatureKind::BigRock => (2, 2),
        FeatureKind::Tree => (2, 2),
        FeatureKind::Rock => (1, 1),
        FeatureKind::Bell => (1, 1),
        FeatureKind::Hay => (2, 1),
        FeatureKind::Farm => (2, 1),
        FeatureKind::Lamppost => (1, 2),
    }
}

/// Cell constructed for subcell `j` of a feature's footprint.
pub fn feature_cell(kind: FeatureKind, j: u8) -> (r: CellState)
    ensures
        r == spec_feature_cell(kind, j),
{
    match kind {
        FeatureKind::House => CellState::House(BuildingState::Solid, j),
        FeatureKind::House2 => CellState::House2(BuildingState::Solid, j),
        FeatureKind::Church => CellState::Church(BuildingState::Solid, j, CHURCH_COUNTDOWN_START),
        FeatureKind::BigRock => CellState::BigRock(j),
        FeatureKind::Tree => CellState::Tree(j),
        FeatureKind::Rock => CellState::Rock,
        FeatureKind::Bell => CellState::Bell,
        FeatureKind::Hay => CellState::Hay(j),
        FeatureKind::Farm => CellState::Farm(j),
        FeatureKind::Lamppost => CellState::Lamppost(j),
    }
}

/// Inclusive lower and exclusive upper corner of the rectangle a feature's
/// candidate positions are drawn from.
pub open spec fn spec_feature_spawn_range(kind: FeatureKind) -> ((u8, u8), (u8, u8)) {
    match kind {
        FeatureKind::House => ((10, 10), (20, 20)),
        FeatureKind::House2 => ((10, 10), (20, 20)),
        FeatureKind::Church => ((10, 10), (20, 20)),
        FeatureKind::BigRock => ((0, 0), (GRID_SIZE_X, GRID_SIZE_Y)),
        FeatureKind::Tree => ((0, 0), (GRID_SIZE_X, GRID_SIZE_Y)),
        FeatureKind::Rock => ((0, 0), (GRID_SIZE_X, GRID_SIZE_Y)),
        FeatureKind::Bell => ((13, 13), (17, 17)),
        FeatureKind::Hay => ((10, 10), (20, 20)),
        FeatureKind::Farm => ((8, 8), (22, 22)),
        FeatureKind::Lamppost => ((12, 12), (18, 18)),
    }
}

/// Minimum and maximum spawn-count targets of a feature kind.
pub open spec fn spec_feature_min_max(kind: FeatureKind) -> (u16, u16) {
    match kind {
        FeatureKind::House => (3, 6),
        FeatureKind::House2 => (1, 4),
        FeatureKind::Church => (2, 6),
        FeatureKind::BigRock => (10, 60),
        FeatureKind::Tree => (30, 60),
        FeatureKind::Rock => (20, 60),
        FeatureKind::Bell => (1, 8),
        FeatureKind::Hay => (1, 8),
        FeatureKind::Farm => (3, 8),
        FeatureKind::Lamppost => (2, 8),
    }
}

/// Inclusive lower and exclusive upper corner of the rectangle a feature's
/// candidate positions are drawn from.
pub fn feature_spawn_range(kind: FeatureKind) -> (r: ((u8, u8), (u8, u8)))
    ensures
        r == spec_feature_spawn_range(kind),
        r.0.0 < r.1.0 && r.1.0 <= GRID_SIZE_X,
        r.0.1 < r.1.1 && r.1.1 <= GRID_SIZE_Y,
{
    match kind {
        FeatureKind::House => ((10, 10), (20, 20)),
        FeatureKind::House2 => ((10, 10), (20, 20)),
        FeatureKind::Church => ((10, 10), (20, 20)),
        FeatureKind::BigRock => ((0, 0), (GRID_SIZE_X, GRID_SIZE_Y)),
        FeatureKind::Tree => ((0, 0), (GRID_SIZE_X, GRID_SIZE_Y)),
        FeatureKind::Rock => ((0, 0), (GRID_SIZE_X, GRID_SIZE_Y)),
        FeatureKind::Bell => ((13, 13), (17, 17)),
        FeatureKind::Hay => ((10, 10), (20, 20)),
        FeatureKind::Farm => ((8, 8), (22, 22)),
        FeatureKind::Lamppost => ((12, 12), (18, 18)),
    }
}

/// Minimum and maximum spawn-count targets of a feature kind. Once the
/// success counter exceeds the minimum, each further attempt continues
/// with even odds; once it exceeds the maximum, the feature is done.
pub fn feature_spawn_min_max(kind: FeatureKind) -> (r: (u16, u16))
    ensures
        r == spec_feature_min_max(kind),
        r.0 <= r.1,
        r.1 <= 60,
{
    match kind {
        FeatureKind::House => (3, 6),
        FeatureKind::House2 => (1, 4),
        FeatureKind::Church => (2, 6),
        FeatureKind::BigRock => (10, 60),
        FeatureKind::Tree => (30, 60),
        FeatureKind::Rock => (20, 60),
        FeatureKind::Bell => (1, 8),
        FeatureKind::Hay => (1, 8),
        FeatureKind::Farm => (3, 8),
        FeatureKind::Lamppost => (2, 8),
    }
}

/// Doubled Chebyshev distance between a point and a centre.
pub open spec fn spec_dist(x: int, y: int, center_x: int, center_y: int) -> int {
    let dx = if x >= center_x {
        x - center_x
    } else {
        center_x - x
    };
    let dy = if y >= center_y {
        y - center_y
    } else {
        center_y - y
    };
    if dx >= dy {
        2 * dx
    } else {
        2 * dy
    }
}

/// Doubled Chebyshev distance between a point and a centre.
pub fn dist(x: i8, y: i8, center_x: i8, center_y: i8) -> (r: u8)
    requires
        -127 <= x - center_x <= 127,
        -127 <= y - center_y <= 127,
    ensures
        r == spec_dist(x as int, y as int, center_x as int, center_y as int),
{
    let dx: i8 = if x >= center_x {
        x - center_x
    } else {
        center_x - x
    };
    let dy: i8 = if y >= center_y {
        y - center_y
    } else {
        center_y - y
    };
    let m: u8 = if dx >= dy {
        dx as u8
    } else {
        dy as u8
    };
    m * 2
}

/// Whether a candidate position passes a feature's placement gate:
/// a doubled-Chebyshev distance band around the board centre, with a
/// column-stride thinning for the building kinds.
pub open spec fn spec_feature_probability(kind: FeatureKind, x: int, y: int) -> bool {
    match kind {
        FeatureKind::House => x % 3 >= 2 && spec_dist(x, y, 15, 15) < 4,
        FeatureKind::House2 => x % 3 >= 2 && spec_dist(x, y, 15, 15) < 16,
        FeatureKind::Church => x % 3 >= 2 && spec_dist(x, y, 15, 15) < 16,
        FeatureKind::BigRock => spec_dist(x, y, 15, 15) > 15,
        FeatureKind::Tree => spec_dist(x, y, 15, 15) > 15,
        FeatureKind::Rock => spec_dist(x, y, 15, 15) > 15,
        FeatureKind::Bell => spec_dist(x, y, 15, 15) < 15,
        FeatureKind::Hay => spec_dist(x, y, 15, 15) < 15,
        FeatureKind::Farm => spec_dist(x, y, 15, 15) < 15,
        FeatureKind::Lamppost => spec_dist(x, y, 15, 15) < 15,
    }
}

/// Whether a candidate position passes a feature's placement gate.
pub fn feature_probability(kind: FeatureKind, x: u8, y: u8) -> (r: bool)
    requires
        x < GRID_SIZE_X,
        y < GRID_SIZE_Y,
    ensures
        r == spec_feature_probability(kind, x as int, y as int),
{
    match kind {
        FeatureKind::House => x % 3 >= 2 && dist(x as i8, y as i8, 15, 15) < 4,
        FeatureKind::House2 => x % 3 >= 2 && dist(x as i8, y as i8, 15, 15) < 16,
        FeatureKind::Church => x % 3 >= 2 && dist(x as i8, y as i8, 15, 15) < 16,
        FeatureKind::BigRock => dist(x as i8, y as i8, 15, 15) > 15,
        FeatureKind::Tree => dist(x as i8, y as i8, 15, 15) > 15,
        FeatureKind::Rock => dist(x as i8, y as i8, 15, 15) > 15,
        FeatureKind::Bell => dist(x as i8, y as i8, 15, 15) < 15,
        FeatureKind::Hay => dist(x as i8, y as i8, 15, 15) < 15,
        FeatureKind::Farm => dist(x as i8, y as i8, 15, 15) < 15,
        FeatureKind::Lamppost => dist(x as i8, y as i8, 15, 15) < 15,
    }
}

/// Whether the cell at board index `i` lies inside the footprint of
/// `kind` rooted at board index `root`.
pub open spec fn footprint_contains(root: int, kind: FeatureKind, i: int) -> bool {
    &&& x_of(root) <= x_of(i) < x_of(root) + feature_width(kind)
    &&& y_of(root) <= y_of(i) < y_of(root) + feature_height(kind)
}

/// Row-major subcell index of board index `i` inside the footprint of
/// `kind` rooted at `root`.
pub open spec fn footprint_subcell(root: int, kind: FeatureKind, i: int) -> int {
    (x_of(i) - x_of(root)) + (y_of(i) - y_of(root)) * feature_width(kind)
}

/// Whether the footprint of `kind` rooted at `root` fits on the board and
/// covers only empty cells.
pub open spec fn spec_can_place(b: Seq<CellState>, root: int, kind: FeatureKind) -> bool {
    &&& x_of(root) + feature_width(kind) <= GRID_SIZE_X as int
    &&& y_of(root) + feature_height(kind) <= GRID_SIZE_Y as int
    &&& forall|i: int|
        0 <= i < AREA && #[trigger] footprint_contains(root, kind, i) ==> b[i] == CellState::Empty
}

/// The board after writing the footprint of `kind` rooted at `root`:
/// covered cells become the feature's subcells, all others are unchanged.
pub open spec fn spec_place(b: Seq<CellState>, root: int, kind: FeatureKind) -> Seq<CellState> {
    Seq::new(
        b.len(),
        |i: int|
            if footprint_contains(root, kind, i) {
                spec_feature_cell(kind, footprint_subcell(root, kind, i) as u8)
            } else {
                b[i]
            },
    )
}

/// Shape facts of a constructed feature cell: it is occupied, its tag and
/// footprint dimensions depend only on the kind, and it records exactly
/// the subcell index it was constructed with.
proof fn lemma_feature_cell_shape(kind: FeatureKind, j: u8)
    requires
        (j as int) < feature_width(kind) * feature_height(kind),
    ensures
        spec_feature_cell(kind, j) != CellState::Empty,
        variant_tag(spec_feature_cell(kind, j)) == variant_tag(spec_feature_cell(kind, 0)),
        footprint_width(spec_feature_cell(kind, j)) == feature_width(kind),
        footprint_height(spec_feature_cell(kind, j)) == feature_height(kind),
        subcell_index(spec_feature_cell(kind, j)) == j,
{
}

/// Placing a feature on empty cells preserves the board invariant.
proof fn lemma_place_preserves_wf(b: Seq<CellState>, root: int, kind: FeatureKind)
    requires
        board_wf(b),
        0 <= root < AREA,
        spec_can_place(b, root, kind),
    ensures
        board_wf(spec_place(b, root, kind)),
{
    let b2 = spec_place(b, root, kind);
    let w = feature_width(kind);
    let h = feature_height(kind);
    let rx = x_of(root);
    let ry = y_of(root);

    assert forall|i: int| 0 <= i < AREA implies #[trigger] cell_wf_at(b2, i) by {
        if footprint_contains(root, kind, i) {
            // A newly written cell: its recorded subcell recovers the new
            // root, and the whole new footprint is consistently placed.
            let a = x_of(i) - rx;
            let bb = y_of(i) - ry;
            let k = footprint_subcell(root, kind, i);
            lemma_subcell_roundtrip(a, bb, w, h);
            let c = b2[i];
            assert(c == spec_feature_cell(kind, k as u8));
            lemma_feature_cell_shape(kind, k as u8);
            assert(subcell_index(c) == k);
            assert(x_of(i) - k % w == rx && y_of(i) - k / w == ry);
            assert(footprint_placed(b2, rx, ry, c)) by {
                assert forall|k2: int| 0 <= k2 < footprint_width(c) * footprint_height(c) implies {
                    let cc = #[trigger] b2[idx_of(rx + k2 % footprint_width(c), ry + k2
                        / footprint_width(c))];
                    variant_tag(cc) == variant_tag(c) && subcell_index(cc) == k2
                } by {
                    lemma_subcell_roundtrip(k2 % w, k2 / w, w, h);
                    lemma_idx_coords(rx + k2 % w, ry + k2 / w);
                    assert(footprint_contains(root, kind, idx_of(rx + k2 % w, ry + k2 / w)));
                    assert(footprint_subcell(root, kind, idx_of(rx + k2 % w, ry + k2 / w)) == k2);
                    assert(b2[idx_of(rx + k2 % w, ry + k2 / w)] == spec_feature_cell(
                        kind,
                        k2 as u8,
                    ));
                    lemma_feature_cell_shape(kind, k2 as u8);
                };
            };
        } else {
            // An untouched cell: its old footprint consisted of occupied
            // cells, which the new placement cannot cover, so every
            // member cell is unchanged.
            assert(b2[i] == b[i]);
            let c = b[i];
            if c != CellState::Empty {
                assert(cell_wf_at(b, i));
                let cw = footprint_width(c);
                let ch = footprint_height(c);
                let j = subcell_index(c);
                let orx = x_of(i) - j % cw;
                let ory = y_of(i) - j / cw;
                assert(footprint_placed(b, orx, ory, c));
                assert forall|k2: int| 0 <= k2 < cw * ch implies {
                    let cc = #[trigger] b2[idx_of(orx + k2 % cw, ory + k2 / cw)];
                    variant_tag(cc) == variant_tag(c) && subcell_index(cc) == k2
                } by {
                    assert(0 <= k2 % cw < cw && k2 / cw < ch) by (nonlinear_arith)
                        requires
                            0 < cw,
                            0 < ch,
                            0 <= k2 < cw * ch,
                    ;
                    let m = idx_of(orx + k2 % cw, ory + k2 / cw);
                    lemma_idx_coords(orx + k2 % cw, ory + k2 / cw);
                    let cc = b[m];
                    assert(variant_tag(cc) == variant_tag(c) && subcell_index(cc) == k2);
                    // The old member cell is occupied, hence outside the
                    // new footprint, hence unchanged.
                    assert(cc != CellState::Empty);
                    assert(!footprint_contains(root, kind, m));
                    assert(b2[m] == cc);
                };
                assert(footprint_placed(b2, orx, ory, c));
            }
        }
    };
}

/// Place the footprint of a feature kind rooted at `index`, unless it
/// would cross the far board edge or cover an occupied cell; in either
/// failure case the board is left unchanged.
pub fn spawn_building(
    index: u16,
    grid: &mut Vec<CellState>,
    width: u8,
    height: u8,
    kind: FeatureKind,
) -> (r: bool)
    requires
        old(grid).len() == AREA,
        board_wf(old(grid)@),
        index < AREA,
        width as int == feature_width(kind),
        height as int == feature_height(kind),
    ensures
        final(grid).len() == AREA,
        board_wf(final(grid)@),
        r == spec_can_place(old(grid)@, index as int, kind),
        r ==> final(grid)@ == spec_place(old(grid)@, index as int, kind),
        !r ==> final(grid)@ == old(grid)@,
{
    let (x, y) = vec_from_grid(index);
    assert(1 <= width <= 2 && 1 <= height <= 3);

    // The footprint may not extend past the board's far edge.
    if x > GRID_SIZE_X - width || y > GRID_SIZE_Y - height {
        return false;
    }
    let total: u8 = width * height;

    // Reject the candidate if any covered cell is occupied.
    let mut k: u8 = 0;
    while k < total
        invariant
            grid.len() == AREA,
            grid@ == old(grid)@,
            board_wf(grid@),
            index < AREA,
            x == x_of(index as int),
            y == y_of(index as int),
            width as int == feature_width(kind),
            height as int == feature_height(kind),
            1 <= width <= 2 && 1 <= height <= 3,
            total == width * height,
            x + width <= GRID_SIZE_X,
            y + height <= GRID_SIZE_Y,
            0 <= k <= total,
            forall|j: int|
                0 <= j < k ==> grid@[#[trigger] idx_of(
                    x as int + j % width as int,
                    y as int + j / width as int,
                )] == CellState::Empty,
        decreases total - k,
    {
        proof {
            lemma_subcell_roundtrip(
                k as int % width as int,
                k as int / width as int,
                width as int,
                height as int,
            );
            lemma_idx_coords(
                x as int + k as int % width as int,
                y as int + k as int / width as int,
            );
        }
        let fx = x + k % width;
        let fy = y + k / width;
        let ci = grid_from_vec(fx, fy);
        if !matches!(grid[ci as usize], CellState::Empty) {
            proof {
                assert(footprint_contains(index as int, kind, ci as int));
                assert(!spec_can_place(grid@, index as int, kind));
            }
            return false;
        }
        k += 1;
    }

    proof {
        // Every covered index comes from some loop step, so the
        // emptiness scan establishes placeability.
        assert forall|i: int|
            0 <= i < AREA && #[trigger] footprint_contains(index as int, kind, i) implies grid@[i]
            == CellState::Empty by {
            let a = x_of(i) - x as int;
            let bb = y_of(i) - y as int;
            lemma_subcell_roundtrip(a, bb, width as int, height as int);
            let j = a + bb * width as int;
            assert(idx_of(x as int + j % width as int, y as int + j / width as int) == idx_of(
                x_of(i),
                y_of(i),
            ));
            assert(idx_of(x_of(i), y_of(i)) == i);
        };
        assert(spec_can_place(grid@, index as int, kind));
    }

    // Write the footprint, top-left to bottom-right.
    let mut k: u8 = 0;
    while k < total
        invariant
            grid.len() == AREA,
            board_wf(old(grid)@),
            spec_can_place(old(grid)@, index as int, kind),
            index < AREA,
            x == x_of(index as int),
            y == y_of(index as int),
            width as int == feature_width(kind),
            height as int == feature_height(kind),
            1 <= width <= 2 && 1 <= height <= 3,
            total == width * height,
            x + width <= GRID_SIZE_X,
            y + height <= GRID_SIZE_Y,
            0 <= k <= total,
            forall|j: int|
                0 <= j < k ==> grid@[#[trigger] idx_of(
                    x as int + j % width as int,
                    y as int + j / width as int,
                )] == spec_feature_cell(kind, j as u8),
            forall|i: int|
                0 <= i < AREA && !#[trigger] footprint_contains(index as int, kind, i) ==> grid@[i]
                    == old(grid)@[i],
            forall|j: int|
                k <= j < total ==> grid@[#[trigger] idx_of(
                    x as int + j % width as int,
                    y as int + j / width as int,
                )] == old(grid)@[idx_of(x as int + j % width as int, y as int + j / width as int)],
        decreases total - k,
    {
        proof {
            lemma_subcell_roundtrip(
                k as int % width as int,
                k as int / width as int,
                width as int,
                height as int,
            );
            lemma_idx_coords(
                x as int + k as int % width as int,
                y as int + k as int / width as int,
            );
        }
        let fx = x + k % width;
        let fy = y + k / width;
        let ci = grid_from_vec(fx, fy);
        let ghost pre = grid@;
        grid[ci as usize] = feature_cell(kind, k);
        proof {
            assert(footprint_contains(index as int, kind, ci as int));
            assert forall|j: int| 0 <= j < k + 1 implies grid@[#[trigger] idx_of(
                x as int + j % width as int,
                y as int + j / width as int,
            )] == spec_feature_cell(kind, j as u8) by {
                lemma_subcell_roundtrip(
                    j % width as int,
                    j / width as int,
                    width as int,
                    height as int,
                );
                lemma_idx_coords(x as int + j % width as int, y as int + j / width as int);
                if j < k {
                    if idx_of(x as int + j % width as int, y as int + j / width as int)
                        != ci as int {
                        assert(grid@[idx_of(x as int + j % width as int, y as int + j / width as int)]
                            == pre[idx_of(x as int + j % width as int, y as int + j / width as int)]);
                    } else {
                        assert(j % width as int == k as int % width as int && j / width as int
                            == k as int / width as int);
                        assert(j == width as int * (j / width as int) + j % width as int);
                        assert(k as int == width as int * (k as int / width as int) + k as int
                            % width as int);
                    }
                }
            };
            assert forall|j: int| k + 1 <= j < total implies grid@[#[trigger] idx_of(
                x as int + j % width as int,
                y as int + j / width as int,
            )] == old(grid)@[idx_of(x as int + j % width as int, y as int + j / width as int)] by {
                lemma_subcell_roundtrip(
                    j % width as int,
                    j / width as int,
                    width as int,
                    height as int,
                );
                lemma_idx_coords(x as int + j % width as int, y as int + j / width as int);
                if idx_of(x as int + j % width as int, y as int + j / width as int) == ci as int {
                    assert(j % width as int == k as int % width as int && j / width as int
                        == k as int / width as int);
                    assert(j == width as int * (j / width as int) + j % width as int);
                    assert(k as int == width as int * (k as int / width as int) + k as int % width as int);
                    assert(false);
                }
            };
        }
        k += 1;
    }

    proof {
        // The written board is exactly the placement of the feature.
        assert forall|i: int| 0 <= i < AREA implies grid@[i] == spec_place(
            old(grid)@,
            index as int,
            kind,
        )[i] by {
            if footprint_contains(index as int, kind, i) {
                let a = x_of(i) - x as int;
                let bb = y_of(i) - y as int;
                lemma_subcell_roundtrip(a, bb, width as int, height as int);
                let j = a + bb * width as int;
                assert(idx_of(x as int + j % width as int, y as int + j / width as int) == idx_of(
                    x_of(i),
                    y_of(i),
                ));
                assert(idx_of(x_of(i), y_of(i)) == i);
                assert(grid@[i] == spec_feature_cell(kind, j as u8));
                assert(footprint_subcell(index as int, kind, i) == j);
            }
        };
        assert(grid@ =~= spec_place(old(grid)@, index as int, kind));
        lemma_place_preserves_wf(old(grid)@, index as int, kind);
    }
    true
}

/// Generator state and value of a bounded `u8` range draw.
pub open spec fn spec_u8_range(s: u64, low: u8, high: u8) -> (u64, u8)
    recommends
        low < high,
{
    let (s2, m) = lemire_u32(s, (high - low) as u32, LEMIRE_RETRY_BUDGET as nat);
    (s2, (low + m) as u8)
}

/// Generator state and value of an even-odds draw.
pub open spec fn spec_coin(s: u64) -> (u64, bool) {
    (rng_next(s), rng_mix(rng_next(s)) % 2 == 1)
}

/// Board and generator state after resolving one feature kind with
/// `remaining` candidate draws left and `count` successes so far: each
/// attempt draws a candidate, thins it through the probability gate,
/// places the footprint where it fits on empty cells, and stops once the
/// success count exceeds the kind's maximum — or, past its minimum, on
/// an even-odds draw.
pub open spec fn feature_attempts(
    kind: FeatureKind,
    b: Seq<CellState>,
    s: u64,
    count: int,
    remaining: nat,
) -> (Seq<CellState>, u64)
    decreases remaining,
{
    if remaining == 0 {
        (b, s)
    } else {
        let range = spec_feature_spawn_range(kind);
        let (s1, x) = spec_u8_range(s, range.0.0, range.1.0);
        let (s2, y) = spec_u8_range(s1, range.0.1, range.1.1);
        if !spec_feature_probability(kind, x as int, y as int) {
            feature_attempts(kind, b, s2, count, (remaining - 1) as nat)
        } else {
            let index = idx_of(x as int, y as int);
            let can = spec_can_place(b, index, kind);
            let b2 = if can {
                spec_place(b, index, kind)
            } else {
                b
            };
            let count2 = count + if can {
                1int
            } else {
                0int
            };
            let minmax = spec_feature_min_max(kind);
            if count2 > minmax.1 as int {
                (b2, s2)
            } else if count2 > minmax.0 as int {
                let (s3, coin) = spec_coin(s2);
                if coin {
                    (b2, s3)
                } else {
                    feature_attempts(kind, b2, s3, count2, (remaining - 1) as nat)
                }
            } else {
                feature_attempts(kind, b2, s2, count2, (remaining - 1) as nat)
            }
        }
    }
}

/// The all-empty board.
pub open spec fn spec_empty_board() -> Seq<CellState> {
    Seq::new(AREA as nat, |i: int| CellState::Empty)
}

/// Board and generator state produced by a full generation run from a
/// seed: every feature kind resolved in priority order on an initially
/// empty board. Generation is a function of the seed alone.
pub open spec fn spec_generate(seed: u64) -> (Seq<CellState>, u64) {
    let r0 = feature_attempts(
        FeatureKind::House,
        spec_empty_board(),
        seed,
        0,
        MAX_SPAWN_ATTEMPTS as nat,
    );
    let r1 = feature_attempts(FeatureKind::House2, r0.0, r0.1, 0, MAX_SPAWN_ATTEMPTS as nat);
    let r2 = feature_attempts(FeatureKind::Church, r1.0, r1.1, 0, MAX_SPAWN_ATTEMPTS as nat);
    let r3 = feature_attempts(FeatureKind::BigRock, r2.0, r2.1, 0, MAX_SPAWN_ATTEMPTS as nat);
    let r4 = feature_attempts(FeatureKind::Tree, r3.0, r3.1, 0, MAX_SPAWN_ATTEMPTS as nat);
    let r5 = feature_attempts(FeatureKind::Rock, r4.0, r4.1, 0, MAX_SPAWN_ATTEMPTS as nat);
    let r6 = feature_attempts(FeatureKind::Bell, r5.0, r5.1, 0, MAX_SPAWN_ATTEMPTS as nat);
    let r7 = feature_attempts(FeatureKind::Hay, r6.0, r6.1, 0, MAX_SPAWN_ATTEMPTS as nat);
    let r8 = feature_attempts(FeatureKind::Farm, r7.0, r7.1, 0, MAX_SPAWN_ATTEMPTS as nat);
    feature_attempts(FeatureKind::Lamppost, r8.0, r8.1, 0, MAX_SPAWN_ATTEMPTS as nat)
}

/// Resolve one feature kind: repeat bounded placement attempts, stopping
/// early once the success count exceeds the kind's maximum, or — with
/// even odds per attempt — once it exceeds the kind's minimum.
fn place_feature(grid: &mut Vec<CellState>, rng: &mut Rng, kind: FeatureKind)
    requires
        old(grid).len() == AREA,
        board_wf(old(grid)@),
    ensures
        final(grid).len() == AREA,
        board_wf(final(grid)@),
        (final(grid)@, final(rng).0) == feature_attempts(
            kind,
            old(grid)@,
            old(rng).0,
            0,
            MAX_SPAWN_ATTEMPTS as nat,
        ),
{
    let ghost g0 = old(grid)@;
    let ghost s0 = old(rng).0;
    let ghost target = feature_attempts(kind, g0, s0, 0, MAX_SPAWN_ATTEMPTS as nat);

    let (min_count, max_count) = feature_spawn_min_max(kind);
    let range = feature_spawn_range(kind);
    let (width, height) = feature_dimensions(kind);
    let mut count: u16 = 0;
    let mut attempt: usize = 0;

    while attempt < MAX_SPAWN_ATTEMPTS
        invariant_except_break
            grid.len() == AREA,
            board_wf(grid@),
            count <= attempt,
            attempt <= MAX_SPAWN_ATTEMPTS,
            range == spec_feature_spawn_range(kind),
            (min_count, max_count) == spec_feature_min_max(kind),
            range.0.0 < range.1.0 && range.1.0 <= GRID_SIZE_X,
            range.0.1 < range.1.1 && range.1.1 <= GRID_SIZE_Y,
            width as int == feature_width(kind),
            height as int == feature_height(kind),
            target == feature_attempts(kind, g0, s0, 0, MAX_SPAWN_ATTEMPTS as nat),
            target == feature_attempts(
                kind,
                grid@,
                rng.0,
                count as int,
                (MAX_SPAWN_ATTEMPTS - attempt) as nat,
            ),
        ensures
            grid.len() == AREA,
            board_wf(grid@),
            target == feature_attempts(kind, g0, s0, 0, MAX_SPAWN_ATTEMPTS as nat),
            target == (grid@, rng.0),
        decreases MAX_SPAWN_ATTEMPTS - attempt,
    {
        let ghost gh = grid@;
        let ghost sh = rng.0;
        let ghost ch = count as int;
        let ghost remh = (MAX_SPAWN_ATTEMPTS - attempt) as nat;

        attempt += 1;
        let x = rng.gen_u8_range(range.0.0, range.1.0);
        let ghost s1 = rng.0;
        let y = rng.gen_u8_range(range.0.1, range.1.1);
        let ghost s2 = rng.0;
        proof {
            assert(spec_u8_range(sh, range.0.0, range.1.0) == (s1, x));
            assert(spec_u8_range(s1, range.0.1, range.1.1) == (s2, y));
        }

        if !feature_probability(kind, x, y) {
            proof {
                assert(feature_attempts(kind, gh, sh, ch, remh) == feature_attempts(
                    kind,
                    gh,
                    s2,
                    ch,
                    (remh - 1) as nat,
                ));
            }
            continue;
        }

        let index = grid_from_vec(x, y);
        let placed = spawn_building(index, grid, width, height, kind);
        if placed {
            count += 1;
        }
        proof {
            // One unfolding of the attempt recursion along this branch.
            assert(feature_attempts(kind, gh, sh, ch, remh) == ({
                let count2 = count as int;
                if count2 > max_count as int {
                    (grid@, s2)
                } else if count2 > min_count as int {
                    let (s3, coin) = spec_coin(s2);
                    if coin {
                        (grid@, s3)
                    } else {
                        feature_attempts(kind, grid@, s3, count2, (remh - 1) as nat)
                    }
                } else {
                    feature_attempts(kind, grid@, s2, count2, (remh - 1) as nat)
                }
            }));
        }

        // The feature may spawn no more often than its maximum.
        if count > max_count {
            break;
        }
        // Enough successes: an even-odds draw decides whether to go on.
        if count > min_count {
            let coin = rng.gen_bool();
            proof {
                assert(spec_coin(s2) == (rng.0, coin));
            }
            if coin {
                break;
            }
        }
    }
}

/// Generate a board: resolve every feature kind in priority order on an
/// initially empty board. The result is well formed — footprints are
/// complete, consistent, mutually disjoint and entirely on the board.
pub fn generate(rng: &mut Rng) -> (board: Vec<CellState>)
    ensures
        board.len() == AREA,
        board_wf(board@),
        (board@, final(rng).0) == spec_generate(old(rng).0),
{
    let ghost s0 = old(rng).0;
    let mut grid: Vec<CellState> = Vec::new();
    let mut i: usize = 0;
    while i < AREA
        invariant
            i <= AREA,
            grid.len() == i,
            forall|j: int| 0 <= j < i ==> grid@[j] == CellState::Empty,
        decreases AREA - i,
    {
        grid.push(CellState::Empty);
        i += 1;
    }
    proof {
        crate::cell::lemma_empty_board_wf(grid@);
        assert(grid@ =~= spec_empty_board());
    }

    place_feature(&mut grid, rng, FeatureKind::House);
    proof {
        assert((grid@, rng.0) == feature_attempts(
            FeatureKind::House,
            spec_empty_board(),
            s0,
            0,
            MAX_SPAWN_ATTEMPTS as nat,
        ));
    }
    place_feature(&mut grid, rng, FeatureKind::House2);
    place_feature(&mut grid, rng, FeatureKind::Church);
    place_feature(&mut grid, rng, FeatureKind::BigRock);
    place_feature(&mut grid, rng, FeatureKind::Tree);
    place_feature(&mut grid, rng, FeatureKind::Rock);
    place_feature(&mut grid, rng, FeatureKind::Bell);
    place_feature(&mut grid, rng, FeatureKind::Hay);
    place_feature(&mut grid, rng, FeatureKind::Farm);
    place_feature(&mut grid, rng, FeatureKind::Lamppost);

    grid
}

} // verus!
