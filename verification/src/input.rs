//! Input, selection and the spend/spawn transaction.
//!
//! The host samples one 8-bit button bitmask per player each frame and
//! hands both to the core, which performs its own edge detection. A held
//! direction moves the cursor with building-aware step sizing, dragging
//! the camera along when the cursor leaves the viewport. A confirm edge
//! while the per-frame affordability flag is set runs the summon
//! transaction: the price is subtracted with a checked subtraction, the
//! destination is resolved before the spend is committed, and a failed
//! resolution leaves all state untouched but a denial cue.

use vstd::prelude::*;
use crate::cell::{BuildingState, CellState, lemma_footprint_occupied};
use crate::entity::{Entity, EntityType, IllagerClan, IllagerState, VillagerClan};
use crate::grid::{
    AREA, CELL_SIZE, GRID_LOCAL_SIZE_X, GRID_LOCAL_SIZE_Y, GRID_SIZE_X, GRID_SIZE_Y, grid_from_vec,
    idx_of, vec_from_grid, x_of, y_of,
};
use crate::sim::{
    CURSOR_MOVEMENT_SPEED_INV, FRAMES_PER_PARTICLE_TICK, Game, PlayerState, in_coord_rect,
    pick_random_location_building_outline, spec_update_particles_rel, spec_update_rel,
};
use crate::sound::Noise;

verus! {

/// Confirm button bit.
pub const BUTTON_1: u8 = 1;

/// Class-cycling button bit.
pub const BUTTON_2: u8 = 2;

/// Direction button bits.
pub const BUTTON_LEFT: u8 = 16;

/// Direction button bits.
pub const BUTTON_RIGHT: u8 = 32;

/// Direction button bits.
pub const BUTTON_UP: u8 = 64;

/// Direction button bits.
pub const BUTTON_DOWN: u8 = 128;

/// Buttons newly pressed this frame: set in `current` but not in `last`.
pub open spec fn spec_new_edges(last: u8, current: u8) -> u8 {
    current & (last ^ current)
}

/// Whether a board index lies on the outermost ring of the board.
pub open spec fn spec_at_border(i: int) -> bool {
    ||| x_of(i) == 0
    ||| x_of(i) == GRID_SIZE_X as int - 1
    ||| y_of(i) == 0
    ||| y_of(i) == GRID_SIZE_Y as int - 1
}

/// Whether a board index lies on the outermost ring of the board.
fn at_border(index: u16) -> (r: bool)
    requires
        index < AREA,
    ensures
        r == spec_at_border(index as int),
{
    let (x, y) = vec_from_grid(index);
    x == 0 || x == GRID_SIZE_X - 1 || y == 0 || y == GRID_SIZE_Y - 1
}

/// Whether the villager side may summon from this cell: a subcell of a
/// completed (solid) house or church.
pub open spec fn spec_villager_spawn_cell(c: CellState) -> bool {
    match c {
        CellState::House(BuildingState::Solid, _) => true,
        CellState::Church(BuildingState::Solid, _, _) => true,
        CellState::House2(BuildingState::Solid, _) => true,
        _ => false,
    }
}

/// Whether the villager side may summon from this cell.
fn can_we_spawn_villagers(cell: &CellState) -> (r: bool)
    ensures
        r == spec_villager_spawn_cell(*cell),
{
    matches!(
        *cell,
        CellState::House(BuildingState::Solid, _)
            | CellState::Church(BuildingState::Solid, _, _)
            | CellState::House2(BuildingState::Solid, _)
    )
}

/// Whether the illager side may summon at this cursor: an empty cell on
/// the board border.
fn can_we_spawn_illagers(cell: &CellState, cursor: u16) -> (r: bool)
    requires
        cursor < AREA,
    ensures
        r == (*cell == CellState::Empty && spec_at_border(cursor as int)),
{
    matches!(*cell, CellState::Empty) && at_border(cursor)
}

/// Price of a class slot: villager side first, then illager side.
pub open spec fn spec_price(slot: int) -> int {
    if slot == 0 {
        1
    } else if slot == 1 {
        2
    } else if slot == 2 {
        3
    } else if slot == 3 {
        1
    } else if slot == 4 {
        2
    } else {
        3
    }
}

/// Price of a class slot: villager side first, then illager side.
fn class_price(slot: usize) -> (r: u8)
    requires
        slot < 6,
    ensures
        r == spec_price(slot as int),
{
    if slot == 0 {
        1
    } else if slot == 1 {
        2
    } else if slot == 2 {
        3
    } else if slot == 3 {
        1
    } else if slot == 4 {
        2
    } else {
        3
    }
}

/// The entity a summon action of this player and class index creates.
pub open spec fn spec_summon_type(player: int, sel: int) -> EntityType {
    if player == 0 {
        if sel == 0 {
            EntityType::VillagerClan(VillagerClan::Villager)
        } else if sel == 1 {
            EntityType::VillagerClan(VillagerClan::Farmer)
        } else {
            EntityType::VillagerClan(VillagerClan::Smith(0))
        }
    } else {
        if sel == 0 {
            EntityType::IllagerClan(IllagerClan::Vindicator, IllagerState::Idle)
        } else if sel == 1 {
            EntityType::IllagerClan(IllagerClan::Pillager, IllagerState::Idle)
        } else {
            EntityType::IllagerClan(IllagerClan::Evoker(0), IllagerState::Idle)
        }
    }
}

/// Whether a player's action is currently possible: the summon classes
/// need currency for their price and a class-appropriate cell under the
/// cursor — a completed building for the villager side, an empty border
/// cell for the illager side; slot four needs an empty cell, the
/// remaining slots are always legal.
pub open spec fn spec_action_possible(b: Seq<CellState>, player: int, p: PlayerState) -> bool {
    let cell = b[p.cursor as int];
    if p.selected_class <= 2 {
        &&& p.emeralds as int >= spec_price(p.selected_class as int + 3 * player)
        &&& if player == 0 {
            spec_villager_spawn_cell(cell)
        } else {
            cell == CellState::Empty && spec_at_border(p.cursor as int)
        }
    } else if p.selected_class == 3 || p.selected_class == 5 {
        true
    } else {
        cell == CellState::Empty
    }
}

/// Whether the rectangle one ring larger than the footprint rooted via
/// subcell `j` of a `w` by `h` building under `cursor` holds an empty
/// in-bounds cell. Since the footprint itself is occupied on a
/// well-formed board, this says the outline ring has a free cell.
pub open spec fn outline_has_empty(b: Seq<CellState>, cursor: int, j: int, w: int, h: int) -> bool {
    let rx = x_of(cursor) - j % w;
    let ry = y_of(cursor) - j / w;
    exists|m: int|
        0 <= m < AREA && #[trigger] in_coord_rect(rx - 1, ry - 1, rx + w, ry + h, m) && b[m]
            == CellState::Empty
}

/// Whether the summon transaction can resolve a destination cell: the
/// cursor cell itself for an illager on empty ground, or a free outline
/// cell of the solid building under the cursor for a villager (a church
/// only while its countdown is still running).
pub open spec fn spec_summon_destination_exists(b: Seq<CellState>, player: int, cursor: int) -> bool {
    if player == 1 && b[cursor] == CellState::Empty {
        true
    } else {
        match b[cursor] {
            CellState::Church(BuildingState::Solid, j, cd) => cd >= 1 && outline_has_empty(
                b,
                cursor,
                j as int,
                2,
                3,
            ),
            CellState::House(BuildingState::Solid, j) => outline_has_empty(b, cursor, j as int, 2, 2),
            CellState::House2(BuildingState::Solid, j) => outline_has_empty(b, cursor, j as int, 2, 2),
            _ => false,
        }
    }
}

/// Relation of the particle phase of a frame: the pool advances only on
/// its slower cadence, every other frame leaves the state untouched.
pub open spec fn spec_particle_phase(pre: Game, post: Game) -> bool {
    if pre.tick % FRAMES_PER_PARTICLE_TICK == 0 {
        spec_update_particles_rel(pre, post)
    } else {
        post == pre
    }
}

/// Relation of one summon transaction attempted with the given class,
/// cursor and purse: the summon happens — entity pushed, price deducted
/// from the returned purse, success cue raised — precisely when the
/// purse covers the price and a destination resolves; with funds but no
/// destination only the deny cue is raised; with short funds nothing at
/// all happens. Board, pool, players and frame are never touched.
pub open spec fn spec_summon_step(
    pre: Game,
    post: Game,
    player: int,
    selected: int,
    cursor: int,
    emeralds: u8,
    r: u8,
) -> bool {
    let price = spec_price(selected + 3 * player);
    let funded = emeralds as int >= price;
    let dest = spec_summon_destination_exists(pre.grid@, player, cursor);
    &&& post.grid == pre.grid
    &&& post.particles == pre.particles
    &&& post.players == pre.players
    &&& post.tick == pre.tick
    &&& post.seed == pre.seed
    &&& pre.entities@.is_prefix_of(post.entities@)
    &&& (post.entities@.len() == pre.entities@.len() + 1) <==> (funded && dest)
    &&& post.entities@.len() <= pre.entities@.len() + 1
    &&& (funded && dest) ==> {
        &&& r == emeralds - price
        &&& post.entities@.last().entity_type == spec_summon_type(player, selected)
        &&& exists|c: int|
            {
                &&& 0 <= c < AREA
                &&& pre.grid@[c] == CellState::Empty
                &&& post.entities@.last().position_x == x_of(c) * CELL_SIZE
                &&& post.entities@.last().position_y == y_of(c) * CELL_SIZE
            }
        &&& post.cues@ == pre.cues@ + seq![Noise::Ting]
    }
    &&& (funded && !dest) ==> {
        &&& r == emeralds
        &&& post.entities == pre.entities
        &&& post.cues@ == pre.cues@ + seq![Noise::SixSeven]
    }
    &&& !funded ==> {
        &&& r == emeralds
        &&& post.entities == pre.entities
        &&& post.cues@ == pre.cues@
    }
}

/// Clamp a value into an inclusive range.
pub open spec fn spec_clamp(v: int, lo: int, hi: int) -> int {
    if v < lo {
        lo
    } else if v > hi {
        hi
    } else {
        v
    }
}

/// New camera coordinate that keeps `val` inside the viewport
/// `[coord, coord + max - 1]`: the camera shifts only as far as needed.
pub open spec fn spec_uncontained_clamp(coord: int, val: int, max: int) -> int {
    if val < coord {
        val
    } else if val > coord + max - 1 {
        val - (max - 1)
    } else {
        coord
    }
}

/// Shift a camera coordinate the least amount that brings `val` into the
/// viewport of size `max` starting at `coord`.
fn uncontained_clamp(coord: i8, val: i8, max: u8) -> (r: i8)
    requires
        0 <= coord,
        1 <= max <= 30,
        coord + max <= GRID_SIZE_X as int,
        0 <= val < GRID_SIZE_X as int,
    ensures
        r == spec_uncontained_clamp(coord as int, val as int, max as int),
        0 <= r,
        r + max <= GRID_SIZE_X as int,
{
    let min = coord;
    let max_c = coord + (max - 1) as i8;
    let diff = if val < min {
        min
    } else if val > max_c {
        max_c
    } else {
        val
    };
    coord + (val - diff)
}

/// Move a cursor by the given steps, clamped to the board, and drag the
/// camera along so the cursor stays inside the visible viewport.
fn move_cursor(step_x: i8, step_y: i8, cursor: u16, camera: (u8, u8)) -> (r: (u16, (u8, u8)))
    requires
        cursor < AREA,
        -3 <= step_x <= 3,
        -3 <= step_y <= 3,
        camera.0 <= GRID_SIZE_X - GRID_LOCAL_SIZE_X,
        camera.1 <= GRID_SIZE_Y - GRID_LOCAL_SIZE_Y,
    ensures
        ({
            let nx = spec_clamp(x_of(cursor as int) + step_x, 0, GRID_SIZE_X as int - 1);
            let ny = spec_clamp(y_of(cursor as int) + step_y, 0, GRID_SIZE_Y as int - 1);
            &&& r.0 == idx_of(nx, ny)
            &&& r.0 < AREA
            &&& r.1.0 == spec_uncontained_clamp(camera.0 as int, nx, GRID_LOCAL_SIZE_X as int)
            &&& r.1.1 == spec_uncontained_clamp(camera.1 as int, ny, GRID_LOCAL_SIZE_Y as int)
            &&& r.1.0 <= GRID_SIZE_X - GRID_LOCAL_SIZE_X
            &&& r.1.1 <= GRID_SIZE_Y - GRID_LOCAL_SIZE_Y
        }),
{
    let (cx, cy) = vec_from_grid(cursor);
    let x0 = cx as i8;
    let y0 = cy as i8;

    let mut x = x0 + step_x;
    if x < 0 {
        x = 0;
    }
    if x > GRID_SIZE_X as i8 - 1 {
        x = GRID_SIZE_X as i8 - 1;
    }
    let mut y = y0 + step_y;
    if y < 0 {
        y = 0;
    }
    if y > GRID_SIZE_Y as i8 - 1 {
        y = GRID_SIZE_Y as i8 - 1;
    }

    let cam_x = uncontained_clamp(camera.0 as i8, x, GRID_LOCAL_SIZE_X);
    let cam_y = uncontained_clamp(camera.1 as i8, y, GRID_LOCAL_SIZE_Y);

    let new_cursor = grid_from_vec(x as u8, y as u8);
    proof {
        crate::grid::lemma_idx_coords(x as int, y as int);
    }
    (new_cursor, (cam_x as u8, cam_y as u8))
}

/// Signed step sizes `(left, right, up, down)` a direction press moves
/// the cursor by, given the cell under it: on a multi-cell footprint the
/// step crosses the whole footprint in one press.
pub open spec fn spec_steps_for_cell(c: CellState) -> (int, int, int, int) {
    match c {
        CellState::House(_, j) | CellState::House2(_, j) => spec_square_steps(j as int),
        CellState::Church(_, j, _) => {
            let (l, r) = if j as int % 2 == 0 {
                (-1int, 2int)
            } else {
                (-2int, 1int)
            };
            if j > 3 {
                (l, r, -3int, 1int)
            } else if j > 1 {
                (l, r, -2int, 2int)
            } else {
                (l, r, -1int, 3int)
            }
        },
        CellState::BigRock(j) | CellState::Tree(j) | CellState::Stand(j) => spec_square_steps(
            j as int,
        ),
        CellState::Lamppost(j) => {
            if j == 1 {
                (-1int, 1int, -2int, 1int)
            } else {
                (-1int, 1int, -1int, 2int)
            }
        },
        CellState::Farm(j) | CellState::Hay(j) => {
            if j as int % 2 == 0 {
                (-1int, 2int, -1int, 1int)
            } else {
                (-2int, 1int, -1int, 1int)
            }
        },
        _ => (-1int, 1int, -1int, 1int),
    }
}

/// Step sizes over a two-by-two footprint.
pub open spec fn spec_square_steps(j: int) -> (int, int, int, int) {
    let (l, r) = if j % 2 == 0 {
        (-1int, 2int)
    } else {
        (-2int, 1int)
    };
    if j > 1 {
        (l, r, -2int, 1int)
    } else {
        (l, r, -1int, 2int)
    }
}

/// The step a held direction button selects, by button priority:
/// up, down, left, right.
pub open spec fn spec_dir_step(pad: u8, steps: (int, int, int, int)) -> (int, int) {
    let (l, r, u, d) = steps;
    if pad & BUTTON_UP != 0 {
        (0, u)
    } else if pad & BUTTON_DOWN != 0 {
        (0, d)
    } else if pad & BUTTON_LEFT != 0 {
        (l, 0)
    } else if pad & BUTTON_RIGHT != 0 {
        (r, 0)
    } else {
        (0, 0)
    }
}

/// Relation of processing one player's sampled bitmask for a frame:
/// edge detection, timer cadence, movement with building-aware step
/// sizing and camera drag, class cycling, and the summon transaction —
/// which fires precisely when a confirm edge meets the affordance flag,
/// a summon class, funds for its price and a resolvable destination.
/// The cues raised are pinned exactly.
pub open spec fn spec_player_step(pre: Game, post: Game, player: int, pad: u8) -> bool {
    let pl = pre.players@[player];
    let pl2 = post.players@[player];
    let fresh = spec_new_edges(pl.old_gamepad, pad);
    let sel2 = if fresh & BUTTON_2 != 0 {
        (pl.selected_class + 1) % 6
    } else {
        pl.selected_class as int
    };
    let buy = fresh & BUTTON_1 != 0 && pl.action_possible && sel2 < 3;
    let funded = pl.emeralds as int >= spec_price(sel2 + 3 * player);
    let dest = spec_summon_destination_exists(pre.grid@, player, pl2.cursor as int);
    &&& post.wf()
    &&& post.grid == pre.grid
    &&& post.particles == pre.particles
    &&& post.tick == pre.tick
    &&& post.seed == pre.seed
    &&& post.players@.len() == 2
    &&& forall|q: int| 0 <= q < 2 && q != player ==> post.players@[q] == pre.players@[q]
    &&& pre.entities@.is_prefix_of(post.entities@)
    &&& post.entities@.len() <= pre.entities@.len() + 1
    &&& pl2.old_gamepad == pad
    &&& pl2.new_gamepad == fresh
    &&& pl2.selected_class == sel2
    &&& pl2.button_held == (pad & BUTTON_1 != 0)
    &&& pl2.action_possible == pl.action_possible
    &&& pl2.cursor_timer == (if pad == 0 {
        0
    } else {
        vstd::wrapping::u8_specs::wrapping_add(pl.cursor_timer, 1) as int
    })
    &&& ({
        // Movement: a held direction on the cadence frame steps the
        // cursor and drags the camera.
        let do_move = pl.cursor_timer % CURSOR_MOVEMENT_SPEED_INV == 0 && pad != 0;
        if do_move {
            let steps = spec_steps_for_cell(pre.grid@[pl.cursor as int]);
            let (sx, sy) = spec_dir_step(pad, steps);
            let nx = spec_clamp(x_of(pl.cursor as int) + sx, 0, GRID_SIZE_X as int - 1);
            let ny = spec_clamp(y_of(pl.cursor as int) + sy, 0, GRID_SIZE_Y as int - 1);
            &&& pl2.cursor == idx_of(nx, ny)
            &&& pl2.camera_x == spec_uncontained_clamp(
                pl.camera_x as int,
                nx,
                GRID_LOCAL_SIZE_X as int,
            )
            &&& pl2.camera_y == spec_uncontained_clamp(
                pl.camera_y as int,
                ny,
                GRID_LOCAL_SIZE_Y as int,
            )
        } else {
            &&& pl2.cursor == pl.cursor
            &&& pl2.camera_x == pl.camera_x
            &&& pl2.camera_y == pl.camera_y
        }
    })
    &&& ((post.entities@.len() == pre.entities@.len() + 1) <==> (buy && funded && dest))
    &&& ((buy && funded && dest) ==> {
        &&& pl2.emeralds == pl.emeralds - spec_price(sel2 + 3 * player)
        &&& post.entities@.last().entity_type == spec_summon_type(player, sel2)
        &&& exists|c: int|
            {
                &&& 0 <= c < AREA
                &&& pre.grid@[c] == CellState::Empty
                &&& post.entities@.last().position_x == x_of(c) * CELL_SIZE
                &&& post.entities@.last().position_y == y_of(c) * CELL_SIZE
            }
    })
    &&& (!(buy && funded && dest) ==> pl2.emeralds == pl.emeralds)
    &&& post.cues@ == pre.cues@ + (if fresh & BUTTON_2 != 0 {
        seq![Noise::TungTungTungSahour]
    } else {
        Seq::<Noise>::empty()
    }) + (if buy {
        if funded && dest {
            seq![Noise::Ting]
        } else if funded {
            seq![Noise::SixSeven]
        } else {
            Seq::<Noise>::empty()
        }
    } else {
        Seq::<Noise>::empty()
    })
}

/// Relation of recomputing both players' affordance flags: each flag is
/// set from the current board, cursor, selection and currency; nothing
/// else changes.
pub open spec fn spec_affordances_rel(pre: Game, post: Game) -> bool {
    &&& post.wf()
    &&& post.players@.len() == 2
    &&& forall|p: int|
        0 <= p < 2 ==> post.players@[p] == (PlayerState {
            action_possible: spec_action_possible(pre.grid@, p, pre.players@[p]),
            ..pre.players@[p]
        })
    &&& post.grid == pre.grid
    &&& post.entities == pre.entities
    &&& post.particles == pre.particles
    &&& post.cues == pre.cues
    &&& post.rng == pre.rng
    &&& post.tick == pre.tick
    &&& post.seed == pre.seed
}

impl Game {
    /// Recompute each player's action-affordance flag from the current
    /// selection, the cell under that player's cursor and the current
    /// currency. Nothing else changes.
    pub fn action_possible(&mut self)
        requires
            old(self).wf(),
        ensures
            final(self).wf(),
            spec_affordances_rel(*old(self), *final(self)),
    {
        let mut player_index: usize = 0;
        while player_index < 2
            invariant
                old(self).wf(),
                self.grid == old(self).grid,
                self.entities == old(self).entities,
                self.particles == old(self).particles,
                self.cues == old(self).cues,
                self.rng == old(self).rng,
                self.tick == old(self).tick,
                self.seed == old(self).seed,
                player_index <= 2,
                self.players@.len() == 2,
                forall|p: int|
                    0 <= p < player_index ==> self.players@[p] == (PlayerState {
                        action_possible: spec_action_possible(
                            old(self).grid@,
                            p,
                            old(self).players@[p],
                        ),
                        ..old(self).players@[p]
                    }),
                forall|p: int|
                    player_index <= p < 2 ==> self.players@[p] == old(self).players@[p],
            decreases 2 - player_index,
        {
            let pl = self.players[player_index];
            let cursor = pl.cursor;
            let cell = self.grid[cursor as usize];

            let flag = if pl.selected_class <= 2 {
                // The summon classes: currency for the price and a legal cell.
                let price = class_price(pl.selected_class as usize + 3 * player_index);
                let player_has_enough_currency = pl.emeralds >= price;
                let player_can_do_thing = if player_index == 0 {
                    can_we_spawn_villagers(&cell)
                } else {
                    can_we_spawn_illagers(&cell, cursor)
                };
                player_has_enough_currency && player_can_do_thing
            } else if pl.selected_class == 3 || pl.selected_class == 5 {
                true
            } else {
                matches!(cell, CellState::Empty)
            };

            self.players[player_index] = PlayerState { action_possible: flag, ..pl };
            player_index += 1;
        }
    }

    /// Process one player's sampled button bitmask: edge detection,
    /// cursor movement with building-aware step sizing, class cycling,
    /// and — on a confirm edge while the affordance flag is set — the
    /// summon transaction. The destination is resolved before any
    /// currency is spent: a failed resolution, or insufficient funds
    /// under the checked subtraction, leaves currency, board and entity
    /// list unchanged.
    #[verifier::rlimit(100)]
    pub fn player_input(&mut self, player_index: usize, pad: u8)
        requires
            old(self).wf(),
            player_index < 2,
        ensures
            final(self).wf(),
            spec_player_step(*old(self), *final(self), player_index as int, pad),
    {
        let pl = self.players[player_index];
        let last = pl.old_gamepad;
        let current = pad;
        let fresh = current & (last ^ current);

        let mut p2 = pl;
        p2.old_gamepad = current;
        p2.new_gamepad = fresh;

        let cursor_tick_check: bool = pl.cursor_timer % CURSOR_MOVEMENT_SPEED_INV == 0;
        p2.cursor_timer = pl.cursor_timer.wrapping_add(1);

        // Building-aware step sizing from the cell under the cursor.
        let mut step_left: i8 = -1;
        let mut step_right: i8 = 1;
        let mut step_down: i8 = 1;
        let mut step_up: i8 = -1;

        match self.grid[pl.cursor as usize] {
            CellState::House(_, j) | CellState::House2(_, j) => {
                if j % 2 == 0 {
                    step_right *= 2;
                } else {
                    step_left *= 2;
                }
                if j > 1 {
                    step_up *= 2;
                } else {
                    step_down *= 2;
                }
            },
            CellState::Church(_, j, _) => {
                if j % 2 == 0 {
                    step_right *= 2;
                } else {
                    step_left *= 2;
                }
                if j > 3 {
                    step_up *= 3;
                } else if j > 1 {
                    step_up *= 2;
                    step_down *= 2;
                } else {
                    step_down *= 3;
                }
            },
            CellState::BigRock(j) | CellState::Tree(j) | CellState::Stand(j) => {
                if j % 2 == 0 {
                    step_right *= 2;
                } else {
                    step_left *= 2;
                }
                if j > 1 {
                    step_up *= 2;
                } else {
                    step_down *= 2;
                }
            },
            CellState::Lamppost(j) => {
                if j == 1 {
                    step_up *= 2;
                } else {
                    step_down *= 2;
                }
            },
            CellState::Farm(j) | CellState::Hay(j) => {
                if j % 2 == 0 {
                    step_right *= 2;
                } else {
                    step_left *= 2;
                }
            },
            _ => {},
        }

        if cursor_tick_check && current != 0 {
            let (sx, sy): (i8, i8) = if current & BUTTON_UP != 0 {
                (0, step_up)
            } else if current & BUTTON_DOWN != 0 {
                (0, step_down)
            } else if current & BUTTON_LEFT != 0 {
                (step_left, 0)
            } else if current & BUTTON_RIGHT != 0 {
                (step_right, 0)
            } else {
                (0, 0)
            };
            let (new_cursor, new_camera) = move_cursor(
                sx,
                sy,
                pl.cursor,
                (pl.camera_x, pl.camera_y),
            );
            p2.cursor = new_cursor;
            p2.camera_x = new_camera.0;
            p2.camera_y = new_camera.1;
        }

        if current == 0 {
            p2.cursor_timer = 0;
        }

        // Cycle the selected class on a fresh press.
        if fresh & BUTTON_2 != 0 {
            p2.selected_class = (p2.selected_class + 1) % 6;
            self.cues.push(Noise::TungTungTungSahour);
        }
        let ghost cues_after_cycle = self.cues@;
        let ghost cycle_part: Seq<Noise> = if fresh & BUTTON_2 != 0 {
            seq![Noise::TungTungTungSahour]
        } else {
            Seq::empty()
        };
        proof {
            assert(cues_after_cycle =~= old(self).cues@ + cycle_part);
        }

        // The summon transaction on a fresh confirm press.
        if fresh & BUTTON_1 != 0 && pl.action_possible {
            if p2.selected_class < 3 {
                p2.emeralds = self.try_summon_action(
                    player_index,
                    p2.selected_class,
                    p2.cursor,
                    p2.emeralds,
                );
            }
        }

        p2.button_held = current & BUTTON_1 != 0;
        self.players[player_index] = p2;
        proof {
            // Assemble the exact cue sequence of this frame.
            let funded = pl.emeralds as int >= spec_price(
                p2.selected_class as int + 3 * player_index,
            );
            let dest = spec_summon_destination_exists(
                self.grid@,
                player_index as int,
                p2.cursor as int,
            );
            if fresh & BUTTON_1 != 0 && pl.action_possible && p2.selected_class < 3 {
                if funded && dest {
                    assert(self.cues@ =~= old(self).cues@ + cycle_part + seq![Noise::Ting]);
                } else if funded {
                    assert(self.cues@ =~= old(self).cues@ + cycle_part + seq![Noise::SixSeven]);
                } else {
                    assert(self.cues@ =~= old(self).cues@ + cycle_part + Seq::<Noise>::empty());
                }
            } else {
                assert(self.cues@ =~= old(self).cues@ + cycle_part + Seq::<Noise>::empty());
            }
        }
    }

    /// The summon transaction: subtract the class price with a checked
    /// subtraction, resolve the destination cell — the cursor cell for
    /// an illager on an empty cell, a random outline cell of the solid
    /// building under the cursor for a villager — and only then commit
    /// the spend and push the new entity with the success cue. When the
    /// funds are short or no destination exists, currency, board and
    /// entity list are left unchanged; the latter case fires the denial
    /// cue. Returns the currency after the transaction.
    fn try_summon_action(
        &mut self,
        player_index: usize,
        selected: u8,
        cursor: u16,
        emeralds: u8,
    ) -> (r: u8)
        requires
            old(self).wf(),
            player_index < 2,
            selected < 3,
            cursor < AREA,
        ensures
            final(self).wf(),
            spec_summon_step(
                *old(self),
                *final(self),
                player_index as int,
                selected as int,
                cursor as int,
                emeralds,
                r,
            ),
    {
        let price = class_price(selected as usize + 3 * player_index);
        match emeralds.checked_sub(price) {
            Some(new_points) => {
                // Resolve the destination cell before spending.
                let cell: Option<u16> = if player_index == 1 && matches!(
                    self.grid[cursor as usize],
                    CellState::Empty,
                ) {
                    Some(cursor)
                } else {
                    match self.grid[cursor as usize] {
                        CellState::Church(BuildingState::Solid, j, cd) => {
                            if cd >= 1 {
                                proof {
                                    lemma_footprint_occupied(self.grid@, cursor as int);
                                }
                                pick_random_location_building_outline(
                                    &self.grid,
                                    2,
                                    3,
                                    j,
                                    cursor,
                                    &mut self.rng,
                                )
                            } else {
                                None
                            }
                        },
                        CellState::House(BuildingState::Solid, j)
                        | CellState::House2(BuildingState::Solid, j) => {
                            proof {
                                lemma_footprint_occupied(self.grid@, cursor as int);
                            }
                            pick_random_location_building_outline(
                                &self.grid,
                                2,
                                2,
                                j,
                                cursor,
                                &mut self.rng,
                            )
                        },
                        _ => None,
                    }
                };

                if let Some(plausible_cell_index) = cell {
                    let (x, y) = vec_from_grid(plausible_cell_index);

                    let entity_type = if player_index == 0 {
                        if selected == 0 {
                            EntityType::VillagerClan(VillagerClan::Villager)
                        } else if selected == 1 {
                            EntityType::VillagerClan(VillagerClan::Farmer)
                        } else {
                            EntityType::VillagerClan(VillagerClan::Smith(0))
                        }
                    } else {
                        if selected == 0 {
                            EntityType::IllagerClan(IllagerClan::Vindicator, IllagerState::Idle)
                        } else if selected == 1 {
                            EntityType::IllagerClan(IllagerClan::Pillager, IllagerState::Idle)
                        } else {
                            EntityType::IllagerClan(IllagerClan::Evoker(0), IllagerState::Idle)
                        }
                    };

                    let global_pos_x = x as u16 * CELL_SIZE as u16;
                    let global_pos_y = y as u16 * CELL_SIZE as u16;
                    let ghost cues_pre = self.cues@;
                    self.entities.push(
                        Entity {
                            entity_type,
                            position_x: global_pos_x,
                            position_y: global_pos_y,
                        },
                    );
                    self.cues.push(Noise::Ting);
                    proof {
                        assert(self.cues@ =~= cues_pre + seq![Noise::Ting]);
                        assert(spec_summon_destination_exists(
                            self.grid@,
                            player_index as int,
                            cursor as int,
                        ));
                    }
                    new_points
                } else {
                    let ghost cues_pre = self.cues@;
                    self.cues.push(Noise::SixSeven);
                    proof {
                        assert(self.cues@ =~= cues_pre + seq![Noise::SixSeven]);
                        assert(!spec_summon_destination_exists(
                            self.grid@,
                            player_index as int,
                            cursor as int,
                        ));
                    }
                    emeralds
                }
            },
            None => { emeralds },
        }
    }

    /// Process both players' sampled button bitmasks for this frame:
    /// the villager player's first, then — on the resulting state — the
    /// illager player's, each step exactly as `spec_player_step` says.
    pub fn fetch_input(&mut self, gamepad1: u8, gamepad2: u8)
        requires
            old(self).wf(),
        ensures
            final(self).wf(),
            exists|mid: Game|
                #[trigger] spec_player_step(*old(self), mid, 0, gamepad1) && spec_player_step(
                    mid,
                    *final(self),
                    1,
                    gamepad2,
                ),
    {
        self.player_input(0, gamepad1);
        let ghost mid = *self;
        self.player_input(1, gamepad2);
        proof {
            assert(spec_player_step(*old(self), mid, 0, gamepad1) && spec_player_step(
                mid,
                *final(self),
                1,
                gamepad2,
            ));
        }
    }

    /// One external frame: advance the simulation, advance the particle
    /// pool on its slower cadence, recompute affordability, process both
    /// players' input, and step the frame counter — each phase exactly
    /// as its relation says, in that order.
    pub fn run(&mut self, gamepad1: u8, gamepad2: u8)
        requires
            old(self).wf(),
        ensures
            final(self).wf(),
            final(self).tick == (old(self).tick + 1) % 60,
            final(self).seed == old(self).seed,
            exists|g1: Game|
                #[trigger] spec_update_rel(*old(self), g1) && (exists|g2: Game|
                    #[trigger] spec_particle_phase(g1, g2) && (exists|g3: Game|
                        #[trigger] spec_affordances_rel(g2, g3) && (exists|g4: Game|
                            #[trigger] spec_player_step(g3, g4, 0, gamepad1) && (exists|g5: Game|
                                #[trigger] spec_player_step(g4, g5, 1, gamepad2) && *final(self)
                                    == (Game { tick: ((g5.tick + 1) % 60) as u8, ..g5 }))))),
    {
        self.update();
        let ghost g1 = *self;

        if self.tick % FRAMES_PER_PARTICLE_TICK == 0 {
            self.update_particles();
        }
        let ghost g2 = *self;

        self.action_possible();
        let ghost g3 = *self;

        self.player_input(0, gamepad1);
        let ghost g4 = *self;
        self.player_input(1, gamepad2);
        let ghost g5 = *self;

        self.tick = (self.tick + 1) % 60;
        proof {
            assert(spec_update_rel(*old(self), g1));
            assert(spec_particle_phase(g1, g2));
            assert(spec_affordances_rel(g2, g3));
            assert(spec_player_step(g3, g4, 0, gamepad1));
            assert(spec_player_step(g4, g5, 1, gamepad2));
            assert(*final(self) == (Game { tick: ((g5.tick + 1) % 60) as u8, ..g5 }));
        }
    }
}

} // verus!
