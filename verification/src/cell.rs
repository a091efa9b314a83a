//! Cell states of the board and the footprint well-formedness invariant.
//!
//! Every multi-cell building or decor piece occupies a contiguous
//! rectangular footprint; each of its cells carries the 0-based row-major
//! subcell index of its position inside the footprint, so the top-left
//! "root" cell can always be recovered from any member cell.

use vstd::prelude::*;
use vstd::arithmetic::div_mod::lemma_fundamental_div_mod_converse;
use crate::grid::{x_of, y_of, idx_of, AREA, GRID_SIZE_X, GRID_SIZE_Y};

verus! {

/// Lifecycle state of a building cell.
#[derive(Clone, Copy, PartialEq, Eq, Structural, Debug)]
pub enum BuildingState {
    Solid,
    Burning,
    Destroyed,
}

/// Contents of one board cell. Buildings carry a `BuildingState` and their
/// subcell index; the church also carries its combustion countdown. Decor
/// pieces carry only a subcell index where they span several cells.
#[derive(Clone, Copy, PartialEq, Eq, Structural, Debug)]
pub enum CellState {
    Empty,
    House(BuildingState, u8),
    House2(BuildingState, u8),
    BigRock(u8),
    Rock,
    Lamppost(u8),
    Bell,
    Tree(u8),
    Stand(u8),
    Church(BuildingState, u8, u8),
    Farm(u8),
    Hay(u8),
}

/// Discriminating tag of a cell variant, ignoring building condition and
/// subcell payloads. Two cells belong to the same footprint only if their
/// tags agree.
pub open spec fn variant_tag(c: CellState) -> int {
    match c {
        CellState::Empty => 0,
        CellState::House(_, _) => 1,
        CellState::House2(_, _) => 2,
        CellState::BigRock(_) => 3,
        CellState::Rock => 4,
        CellState::Lamppost(_) => 5,
        CellState::Bell => 6,
        CellState::Tree(_) => 7,
        CellState::Stand(_) => 8,
        CellState::Church(_, _, _) => 9,
        CellState::Farm(_) => 10,
        CellState::Hay(_) => 11,
    }
}

/// Footprint width in cells of a cell's variant.
pub open spec fn footprint_width(c: CellState) -> int {
    match c {
        CellState::Empty => 1,
        CellState::House(_, _) => 2,
        CellState::House2(_, _) => 2,
        CellState::BigRock(_) => 2,
        CellState::Rock => 1,
        CellState::Lamppost(_) => 1,
        CellState::Bell => 1,
        CellState::Tree(_) => 2,
        CellState::Stand(_) => 2,
        CellState::Church(_, _, _) => 2,
        CellState::Farm(_) => 2,
        CellState::Hay(_) => 2,
    }
}

/// Footprint height in cells of a cell's variant.
pub open spec fn footprint_height(c: CellState) -> int {
    match c {
        CellState::Empty => 1,
        CellState::House(_, _) => 2,
        CellState::House2(_, _) => 2,
        CellState::BigRock(_) => 2,
        CellState::Rock => 1,
        CellState::Lamppost(_) => 2,
        CellState::Bell => 1,
        CellState::Tree(_) => 2,
        CellState::Stand(_) => 2,
        CellState::Church(_, _, _) => 3,
        CellState::Farm(_) => 1,
        CellState::Hay(_) => 1,
    }
}

/// Row-major position of a cell inside its footprint.
pub open spec fn subcell_index(c: CellState) -> int {
    match c {
        CellState::Empty => 0,
        CellState::House(_, j) => j as int,
        CellState::House2(_, j) => j as int,
        CellState::BigRock(j) => j as int,
        CellState::Rock => 0,
        CellState::Lamppost(j) => j as int,
        CellState::Bell => 0,
        CellState::Tree(j) => j as int,
        CellState::Stand(j) => j as int,
        CellState::Church(_, j, _) => j as int,
        CellState::Farm(j) => j as int,
        CellState::Hay(j) => j as int,
    }
}

/// The whole footprint of the variant of `proto` is placed with its root
/// at `(rx, ry)`: every member cell carries the variant's tag and its own
/// row-major subcell index.
pub open spec fn footprint_placed(b: Seq<CellState>, rx: int, ry: int, proto: CellState) -> bool {
    let w = footprint_width(proto);
    let h = footprint_height(proto);
    &&& 0 <= rx
    &&& rx + w <= GRID_SIZE_X as int
    &&& 0 <= ry
    &&& ry + h <= GRID_SIZE_Y as int
    &&& forall|k: int|
        0 <= k < w * h ==> {
            let cc = #[trigger] b[idx_of(rx + k % w, ry + k / w)];
            variant_tag(cc) == variant_tag(proto) && subcell_index(cc) == k
        }
}

/// Well-formedness of one occupied cell: its subcell index is in range and
/// the footprint it claims to belong to is fully and consistently placed
/// inside the board.
pub open spec fn cell_wf_at(b: Seq<CellState>, i: int) -> bool {
    let c = b[i];
    c != CellState::Empty ==> {
        let w = footprint_width(c);
        let h = footprint_height(c);
        let j = subcell_index(c);
        &&& 0 <= j < w * h
        &&& footprint_placed(b, x_of(i) - j % w, y_of(i) - j / w, c)
    }
}

/// Board invariant: 900 cells, and every occupied cell belongs to exactly
/// one consistent footprint lying entirely inside the board.
pub open spec fn board_wf(b: Seq<CellState>) -> bool {
    &&& b.len() == AREA
    &&& forall|i: int| 0 <= i < AREA ==> #[trigger] cell_wf_at(b, i)
}

/// An empty board is well formed.
pub proof fn lemma_empty_board_wf(b: Seq<CellState>)
    requires
        b.len() == AREA,
        forall|i: int| 0 <= i < AREA ==> #[trigger] b[i] == CellState::Empty,
    ensures
        board_wf(b),
{
}

/// Footprint containment: on a well-formed board, the footprint an
/// occupied cell belongs to lies entirely within the board, so every
/// member index is below `AREA`.
pub proof fn lemma_footprint_containment(b: Seq<CellState>, i: int)
    requires
        board_wf(b),
        0 <= i < AREA,
        b[i] != CellState::Empty,
    ensures
        ({
            let c = b[i];
            let w = footprint_width(c);
            let h = footprint_height(c);
            let rx = x_of(i) - subcell_index(c) % w;
            let ry = y_of(i) - subcell_index(c) / w;
            &&& 0 <= rx && rx + w <= GRID_SIZE_X as int
            &&& 0 <= ry && ry + h <= GRID_SIZE_Y as int
            &&& forall|k: int|
                0 <= k < w * h ==> 0 <= #[trigger] idx_of(rx + k % w, ry + k / w) < AREA
        }),
{
    let c = b[i];
    let w = footprint_width(c);
    let h = footprint_height(c);
    let rx = x_of(i) - subcell_index(c) % w;
    let ry = y_of(i) - subcell_index(c) / w;
    assert(cell_wf_at(b, i));
    assert forall|k: int| 0 <= k < w * h implies 0 <= #[trigger] idx_of(rx + k % w, ry + k / w)
        < AREA by {
        assert(0 <= k % w < w) by (nonlinear_arith)
            requires
                w > 0,
                k >= 0,
        ;
        assert(0 <= k / w < h) by (nonlinear_arith)
            requires
                w > 0,
                h > 0,
                0 <= k < w * h,
        ;
        crate::grid::lemma_idx_coords(rx + k % w, ry + k / w);
    };
}

/// Row-major subcell arithmetic: position `(a, b)` inside a `w`-wide
/// footprint has subcell index `a + b * w`, and that index decomposes
/// back into `(a, b)`.
pub proof fn lemma_subcell_roundtrip(a: int, b: int, w: int, h: int)
    requires
        0 <= a < w,
        0 <= b < h,
    ensures
        (a + b * w) % w == a,
        (a + b * w) / w == b,
        0 <= a + b * w < w * h,
{
    lemma_fundamental_div_mod_converse(a + b * w, w, b, a);
    assert(a + b * w < w * h) by (nonlinear_arith)
        requires
            0 <= a < w,
            0 <= b < h,
    ;
    assert(a + b * w >= 0) by (nonlinear_arith)
        requires
            0 <= a,
            0 <= b,
            0 < w,
    ;
}

/// On a well-formed board, the whole rectangular footprint an occupied
/// cell belongs to lies on the board and consists of occupied cells.
pub proof fn lemma_footprint_occupied(b: Seq<CellState>, i: int)
    requires
        board_wf(b),
        0 <= i < AREA,
        b[i] != CellState::Empty,
    ensures
        ({
            let c = b[i];
            let w = footprint_width(c);
            let h = footprint_height(c);
            let j = subcell_index(c);
            let rx = x_of(i) - j % w;
            let ry = y_of(i) - j / w;
            &&& 0 <= j < w * h
            &&& j % w <= x_of(i) && j / w <= y_of(i)
            &&& 0 <= rx && rx + w <= GRID_SIZE_X as int
            &&& 0 <= ry && ry + h <= GRID_SIZE_Y as int
            &&& forall|m: int|
                0 <= m < AREA && rx <= x_of(m) < rx + w && ry <= y_of(m) < ry + h ==> b[m]
                    != CellState::Empty
        }),
{
    let c = b[i];
    let w = footprint_width(c);
    let h = footprint_height(c);
    let j = subcell_index(c);
    let rx = x_of(i) - j % w;
    let ry = y_of(i) - j / w;
    assert(cell_wf_at(b, i));
    assert(0 <= j % w && 0 <= j / w) by (nonlinear_arith)
        requires
            w > 0,
            0 <= j,
    ;
    assert forall|m: int|
        0 <= m < AREA && rx <= x_of(m) < rx + w && ry <= y_of(m) < ry + h implies b[m]
        != CellState::Empty by {
        let a = x_of(m) - rx;
        let bb = y_of(m) - ry;
        lemma_subcell_roundtrip(a, bb, w, h);
        let k = a + bb * w;
        crate::grid::lemma_idx_coords(rx + k % w, ry + k / w);
        assert(idx_of(rx + k % w, ry + k / w) == idx_of(x_of(m), y_of(m)));
        assert(idx_of(x_of(m), y_of(m)) == m);
        let cc = b[m];
        assert(variant_tag(cc) == variant_tag(c));
    };
}

/// A board transformation that touches only building conditions and
/// countdowns — keeping every cell's variant tag and subcell index —
/// preserves the board invariant.
pub proof fn lemma_same_shape_preserves_wf(b: Seq<CellState>, b2: Seq<CellState>)
    requires
        board_wf(b),
        b2.len() == b.len(),
        forall|i: int|
            0 <= i < b.len() ==> variant_tag(#[trigger] b2[i]) == variant_tag(b[i])
                && subcell_index(b2[i]) == subcell_index(b[i]),
    ensures
        board_wf(b2),
{
    assert forall|i: int| 0 <= i < AREA implies #[trigger] cell_wf_at(b2, i) by {
        let c2 = b2[i];
        if c2 != CellState::Empty {
            let c = b[i];
            assert(variant_tag(c) == variant_tag(c2));
            assert(c != CellState::Empty);
            assert(cell_wf_at(b, i));
            assert(footprint_width(c2) == footprint_width(c) && footprint_height(c2)
                == footprint_height(c));
            let w = footprint_width(c);
            let h = footprint_height(c);
            let j = subcell_index(c);
            let rx = x_of(i) - j % w;
            let ry = y_of(i) - j / w;
            assert forall|k: int| 0 <= k < w * h implies {
                let cc = #[trigger] b2[idx_of(rx + k % w, ry + k / w)];
                variant_tag(cc) == variant_tag(c2) && subcell_index(cc) == k
            } by {
                assert(0 <= k % w < w && 0 <= k / w < h) by (nonlinear_arith)
                    requires
                        w > 0,
                        h > 0,
                        0 <= k < w * h,
                ;
                crate::grid::lemma_idx_coords(rx + k % w, ry + k / w);
                let m = idx_of(rx + k % w, ry + k / w);
                assert(variant_tag(b[m]) == variant_tag(c) && subcell_index(b[m]) == k);
            };
            assert(footprint_placed(b2, rx, ry, c2));
        }
    };
}

/// No overlap: two placed footprints sharing any cell are the same
/// placement — same root and same variant tag.
pub proof fn lemma_footprint_unique_owner(
    b: Seq<CellState>,
    rx1: int,
    ry1: int,
    c1: CellState,
    k1: int,
    rx2: int,
    ry2: int,
    c2: CellState,
    k2: int,
)
    requires
        b.len() == AREA,
        c1 != CellState::Empty,
        c2 != CellState::Empty,
        footprint_placed(b, rx1, ry1, c1),
        footprint_placed(b, rx2, ry2, c2),
        0 <= k1 < footprint_width(c1) * footprint_height(c1),
        0 <= k2 < footprint_width(c2) * footprint_height(c2),
        idx_of(rx1 + k1 % footprint_width(c1), ry1 + k1 / footprint_width(c1)) == idx_of(
            rx2 + k2 % footprint_width(c2),
            ry2 + k2 / footprint_width(c2),
        ),
    ensures
        rx1 == rx2,
        ry1 == ry2,
        variant_tag(c1) == variant_tag(c2),
{
    let w1 = footprint_width(c1);
    let h1 = footprint_height(c1);
    let w2 = footprint_width(c2);
    let h2 = footprint_height(c2);
    let i = idx_of(rx1 + k1 % w1, ry1 + k1 / w1);
    assert(0 <= k1 % w1 < w1 && 0 <= k1 / w1 < h1) by (nonlinear_arith)
        requires
            w1 > 0,
            h1 > 0,
            0 <= k1 < w1 * h1,
    ;
    assert(0 <= k2 % w2 < w2 && 0 <= k2 / w2 < h2) by (nonlinear_arith)
        requires
            w2 > 0,
            h2 > 0,
            0 <= k2 < w2 * h2,
    ;
    let cc = b[i];
    assert(variant_tag(cc) == variant_tag(c1) && subcell_index(cc) == k1);
    assert(variant_tag(cc) == variant_tag(c2) && subcell_index(cc) == k2);
    // Same tag means same footprint dimensions, and the shared cell's own
    // subcell index pins its offset from either claimed root.
    assert(w1 == w2 && h1 == h2);
    assert(k1 == k2);
    crate::grid::lemma_idx_coords(rx1 + k1 % w1, ry1 + k1 / w1);
    crate::grid::lemma_idx_coords(rx2 + k2 % w2, ry2 + k2 / w2);
}

} // verus!
