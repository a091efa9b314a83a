//! Game state and the per-tick simulation update.
//!
//! One `Game` value owns the board, the entity list, the particle pool,
//! the per-player control state and the generator. The host's main loop
//! owns the value, samples the controllers, and calls `run` once per
//! external tick; everything the host must perform (tones, blits) is
//! handed back as plain data.

use vstd::prelude::*;
use crate::cell::{
    BuildingState, CellState, board_wf, lemma_same_shape_preserves_wf, subcell_index, variant_tag,
};
use crate::entity::Entity;
use crate::grid::{
    AREA, CELL_SIZE, GRID_LOCAL_SIZE_X, GRID_LOCAL_SIZE_Y, GRID_SIZE_X, GRID_SIZE_Y, grid_from_vec,
    idx_of, vec_from_grid, x_of, y_of,
};
use crate::particles::{MAX_PARTICLE_COUNT, Particle, sort_particles_by_life, sorted_by_life};
use crate::rng::Rng;
use crate::sound::Noise;
use crate::terrain::generate;

verus! {

/// The particle pool advances once every this many frames.
pub const FRAMES_PER_PARTICLE_TICK: u8 = 8;

/// A held direction button moves the cursor once every this many frames.
pub const CURSOR_MOVEMENT_SPEED_INV: u8 = 7;

/// Period, in frames, of the burning church's countdown cadence.
pub const CHURCH_EXPLOSION_FREQUENCY_THING: u8 = 20;

/// Pixel position past which an entity would leave the walkable board.
pub const ENTITY_POS_LIMIT: u16 = 290;

/// Number of debris particles a church explosion emits.
pub const EXPLOSION_PARTICLE_COUNT: usize = 20;

/// Per-player control state: currency, cursor, camera, selection and
/// input-edge bookkeeping.
#[derive(Clone, Copy, PartialEq, Eq, Structural, Debug)]
pub struct PlayerState {
    pub emeralds: u8,
    pub cursor: u16,
    pub old_gamepad: u8,
    pub new_gamepad: u8,
    pub cursor_timer: u8,
    pub camera_x: u8,
    pub camera_y: u8,
    pub button_held: bool,
    pub action_possible: bool,
    pub selected_class: u8,
}

/// The whole simulation state. Player 0 commands the villager clan,
/// player 1 the illager clan.
pub struct Game {
    pub seed: u64,
    pub rng: Rng,
    pub tick: u8,
    pub players: Vec<PlayerState>,
    pub grid: Vec<CellState>,
    pub entities: Vec<Entity>,
    pub particles: Vec<Particle>,
    pub cues: Vec<Noise>,
}

/// Well-formedness of one player's control state.
pub open spec fn player_wf(p: PlayerState) -> bool {
    &&& p.cursor < AREA
    &&& p.selected_class < 6
    &&& p.camera_x <= GRID_SIZE_X - GRID_LOCAL_SIZE_X
    &&& p.camera_y <= GRID_SIZE_Y - GRID_LOCAL_SIZE_Y
}

/// Well-formedness of an entity: its pixel position stays on the
/// walkable board area.
pub open spec fn entity_wf(e: Entity) -> bool {
    &&& e.position_x <= ENTITY_POS_LIMIT
    &&& e.position_y <= ENTITY_POS_LIMIT
}

impl Game {
    /// Invariant of the whole simulation state.
    pub open spec fn wf(self) -> bool {
        &&& self.grid.len() == AREA
        &&& board_wf(self.grid@)
        &&& self.players.len() == 2
        &&& forall|p: int| 0 <= p < 2 ==> player_wf(#[trigger] self.players@[p])
        &&& forall|e: int| 0 <= e < self.entities@.len() ==> entity_wf(#[trigger] self.entities@[e])
        &&& self.particles.len() <= MAX_PARTICLE_COUNT
        &&& self.tick < 60
    }

    /// Create the initial game state from a seed and the controllers'
    /// initial bitmasks: generate the board, point the villager player's
    /// cursor and camera at the village centre, and grant the starting
    /// currency (200 to the villagers, 100 to the illagers).
    pub fn new(seed: u64, gamepad1: u8, gamepad2: u8) -> (game: Game)
        ensures
            game.wf(),
            game.seed == seed,
            game.tick == 0,
            (game.grid@, game.rng.0) == crate::terrain::spec_generate(seed),
            game.players@[0] == (PlayerState {
                emeralds: 200,
                cursor: (idx_of(GRID_SIZE_X as int / 2, GRID_SIZE_Y as int / 2)) as u16,
                old_gamepad: gamepad1,
                new_gamepad: 0,
                cursor_timer: 0,
                camera_x: (GRID_SIZE_X / 2 - GRID_LOCAL_SIZE_X / 2) as u8,
                camera_y: (GRID_SIZE_Y / 2 - GRID_LOCAL_SIZE_Y / 2) as u8,
                button_held: false,
                action_possible: false,
                selected_class: 0,
            }),
            game.players@[1] == (PlayerState {
                emeralds: 100,
                cursor: 0,
                old_gamepad: gamepad2,
                new_gamepad: 0,
                cursor_timer: 0,
                camera_x: 0,
                camera_y: 0,
                button_held: false,
                action_possible: false,
                selected_class: 0,
            }),
            game.entities@.len() == 0,
            game.particles@.len() == 0,
            game.cues@.len() == 0,
    {
        let mut rng = Rng::new(seed);
        let grid = generate(&mut rng);

        let mid_x = GRID_SIZE_X / 2;
        let mid_y = GRID_SIZE_Y / 2;
        let village_cursor = grid_from_vec(mid_x, mid_y);

        let villager = PlayerState {
            emeralds: 200,
            cursor: village_cursor,
            old_gamepad: gamepad1,
            new_gamepad: 0,
            cursor_timer: 0,
            camera_x: mid_x - GRID_LOCAL_SIZE_X / 2,
            camera_y: mid_y - GRID_LOCAL_SIZE_Y / 2,
            button_held: false,
            action_possible: false,
            selected_class: 0,
        };
        let illager = PlayerState {
            emeralds: 100,
            cursor: 0,
            old_gamepad: gamepad2,
            new_gamepad: 0,
            cursor_timer: 0,
            camera_x: 0,
            camera_y: 0,
            button_held: false,
            action_possible: false,
            selected_class: 0,
        };
        let mut players: Vec<PlayerState> = Vec::new();
        players.push(villager);
        players.push(illager);

        Game {
            seed,
            rng,
            tick: 0,
            players,
            grid,
            entities: Vec::new(),
            particles: Vec::new(),
            cues: Vec::new(),
        }
    }

    /// The cell after an external condition change: buildings take the
    /// given condition, every other cell is left as it is.
    pub open spec fn spec_set_condition(c: CellState, condition: BuildingState) -> CellState {
        match c {
            CellState::House(_, j) => CellState::House(condition, j),
            CellState::House2(_, j) => CellState::House2(condition, j),
            CellState::Church(_, j, cd) => CellState::Church(condition, j, cd),
            _ => c,
        }
    }

    /// Externally trigger a building-condition change (ignition and the
    /// like) on the cell at `index`. Non-building cells are unaffected.
    pub fn set_condition(&mut self, index: u16, condition: BuildingState)
        requires
            old(self).wf(),
            index < AREA,
        ensures
            final(self).wf(),
            final(self).grid@ == old(self).grid@.update(
                index as int,
                Self::spec_set_condition(old(self).grid@[index as int], condition),
            ),
            final(self).players == old(self).players,
            final(self).entities == old(self).entities,
            final(self).particles == old(self).particles,
            final(self).cues == old(self).cues,
            final(self).rng == old(self).rng,
            final(self).tick == old(self).tick,
            final(self).seed == old(self).seed,
    {
        let cell = self.grid[index as usize];
        let new_cell = match cell {
            CellState::House(_, j) => CellState::House(condition, j),
            CellState::House2(_, j) => CellState::House2(condition, j),
            CellState::Church(_, j, cd) => CellState::Church(condition, j, cd),
            _ => cell,
        };
        self.grid[index as usize] = new_cell;
        proof {
            lemma_same_shape_preserves_wf(old(self).grid@, self.grid@);
        }
    }

    /// The cell after an external countdown change: a church takes the
    /// given countdown, every other cell is left as it is.
    pub open spec fn spec_set_church_countdown(c: CellState, countdown: u8) -> CellState {
        match c {
            CellState::Church(st, j, _) => CellState::Church(st, j, countdown),
            _ => c,
        }
    }

    /// Externally set the combustion countdown of the church cell at
    /// `index`. Non-church cells are unaffected.
    pub fn set_church_countdown(&mut self, index: u16, countdown: u8)
        requires
            old(self).wf(),
            index < AREA,
        ensures
            final(self).wf(),
            final(self).grid@ == old(self).grid@.update(
                index as int,
                Self::spec_set_church_countdown(old(self).grid@[index as int], countdown),
            ),
            final(self).players == old(self).players,
            final(self).entities == old(self).entities,
            final(self).particles == old(self).particles,
            final(self).cues == old(self).cues,
            final(self).rng == old(self).rng,
            final(self).tick == old(self).tick,
            final(self).seed == old(self).seed,
    {
        let cell = self.grid[index as usize];
        let new_cell = match cell {
            CellState::Church(st, j, _) => CellState::Church(st, j, countdown),
            _ => cell,
        };
        self.grid[index as usize] = new_cell;
        proof {
            lemma_same_shape_preserves_wf(old(self).grid@, self.grid@);
        }
    }

    /// Remove the entity at list position `i`. The core never decides
    /// when an entity dies; this is the capability an external combat
    /// layer would call.
    pub fn remove_entity(&mut self, i: usize) -> (removed: Entity)
        requires
            old(self).wf(),
            i < old(self).entities@.len(),
        ensures
            final(self).wf(),
            removed == old(self).entities@[i as int],
            final(self).entities@ == old(self).entities@.remove(i as int),
            final(self).grid == old(self).grid,
            final(self).players == old(self).players,
            final(self).particles == old(self).particles,
            final(self).cues == old(self).cues,
            final(self).rng == old(self).rng,
            final(self).tick == old(self).tick,
    {
        self.entities.remove(i)
    }

    /// Insert a particle into the pool. Below capacity the particle is
    /// appended; at capacity, a particle with the lowest remaining
    /// lifetime is evicted first (sort by lifetime, drop the worst,
    /// re-sort), so the pool never grows past `MAX_PARTICLE_COUNT`.
    pub fn summon_particle(particles: &mut Vec<Particle>, particle: Particle)
        ensures
            spec_summoned(old(particles)@, final(particles)@, particle),
    {
        broadcast use vstd::seq_lib::group_to_multiset_ensures;

        if particles.len() >= MAX_PARTICLE_COUNT {
            let ghost orig = particles@;
            sort_particles_by_life(particles);
            let ghost sorted = particles@;
            let evicted = particles.remove(0);
            particles.push(particle);
            sort_particles_by_life(particles);
            proof {
                // The first element of the sorted pool has minimal
                // lifetime among the original pool's members.
                assert(orig.to_multiset().contains(evicted));
                assert(orig.contains(evicted));
                let i = choose|i: int| 0 <= i < orig.len() && orig[i] == evicted;
                assert forall|j: int| 0 <= j < orig.len() implies (#[trigger] orig[j]).life
                    >= orig[i].life by {
                    assert(orig.to_multiset().contains(orig[j]));
                    assert(sorted.to_multiset().contains(orig[j]));
                    assert(sorted.contains(orig[j]));
                    let k = choose|k: int| 0 <= k < sorted.len() && sorted[k] == orig[j];
                    assert(sorted[0].life <= sorted[k].life);
                };
                assert(sorted.remove(0).to_multiset() =~= sorted.to_multiset().remove(evicted));
                assert(final(particles)@.to_multiset() =~= orig.to_multiset().remove(
                    orig[i],
                ).insert(particle));
            }
        } else {
            particles.push(particle);
        }
    }
}

/// Relation of inserting one particle into the pool: appended below
/// capacity; at capacity, a particle with the lowest remaining lifetime
/// among the pool's members is evicted first, so the pool never grows
/// past `MAX_PARTICLE_COUNT`.
pub open spec fn spec_summoned(pre: Seq<Particle>, post: Seq<Particle>, particle: Particle) -> bool {
    &&& post.len() == (if pre.len() >= MAX_PARTICLE_COUNT {
        pre.len() as int
    } else {
        pre.len() as int + 1
    })
    &&& (pre.len() < MAX_PARTICLE_COUNT ==> post == pre.push(particle))
    &&& (pre.len() >= MAX_PARTICLE_COUNT ==> {
        &&& sorted_by_life(post)
        &&& exists|i: int|
            {
                &&& 0 <= i < pre.len()
                &&& (forall|j: int|
                    0 <= j < pre.len() ==> (#[trigger] pre[j]).life >= pre[i].life)
                &&& post.to_multiset() == pre.to_multiset().remove(pre[i]).insert(particle)
            }
    })
}

/// Whether this cell is the root subcell of a burning house.
pub open spec fn spec_burning_house_root(c: CellState) -> bool {
    c == CellState::House(BuildingState::Burning, 0) || c == CellState::House2(
        BuildingState::Burning,
        0,
    )
}

/// A smoke particle as emitted at the door of the burning house rooted
/// at board index `i`: a small horizontal scatter, a short random
/// lifetime, no horizontal velocity.
pub open spec fn spec_smoke_particle(i: int, p: Particle) -> bool {
    let dx = x_of(i) * CELL_SIZE as int + 8;
    let dy = y_of(i) * CELL_SIZE as int + 14;
    &&& dx <= p.x < dx + 4
    &&& p.y == dy
    &&& 16 <= p.life < 20
    &&& p.horizontal_velocity == 0
}

/// Three smoke particles of the house rooted at board index `i`
/// inserted into the pool in turn.
pub open spec fn spec_smoke_emitted(i: int, pre: Seq<Particle>, post: Seq<Particle>) -> bool {
    exists|p1: Particle, p2: Particle, p3: Particle, q1: Seq<Particle>, q2: Seq<Particle>|
        #![trigger spec_summoned(pre, q1, p1), spec_summoned(q1, q2, p2), spec_summoned(q2, post, p3)]
        {
            &&& spec_smoke_particle(i, p1)
            &&& spec_smoke_particle(i, p2)
            &&& spec_smoke_particle(i, p3)
            &&& spec_summoned(pre, q1, p1)
            &&& spec_summoned(q1, q2, p2)
            &&& spec_summoned(q2, post, p3)
        }
}

/// Smoke contribution of one cell: a burning house root inserts three
/// smoke particles in turn, any other cell leaves the pool alone.
pub open spec fn spec_smoke_cell(c: CellState, i: int, pre: Seq<Particle>, post: Seq<Particle>) -> bool {
    if spec_burning_house_root(c) {
        spec_smoke_emitted(i, pre, post)
    } else {
        post == pre
    }
}

/// Smoke contributions of the cells in board order, recorded as the
/// chain of pool states: entry `k` is the pool before cell `k` is
/// considered, so consecutive entries are related by that cell's smoke
/// contribution.
pub open spec fn spec_smoke_chain(b: Seq<CellState>, pools: Seq<Seq<Particle>>, n: int) -> bool {
    &&& pools.len() == n + 1
    &&& forall|k: int| 0 <= k < n ==> spec_smoke_cell(b[k], k, #[trigger] pools[k], pools[k + 1])
}

/// A debris particle as emitted by the explosion of the church subcell
/// at board index `i`: scattered a couple of pixels around the cell
/// centre, a short random lifetime, any horizontal velocity.
pub open spec fn spec_burst_particle(i: int, p: Particle) -> bool {
    let dx = x_of(i) * CELL_SIZE as int + 5;
    let dy = y_of(i) * CELL_SIZE as int + 5;
    &&& exists|ox: i16, oy: i16|
        #![trigger spec_sat_add_u16((dx as u16), ox), spec_sat_add_u16((dy as u16), oy)]
        {
            &&& -2 <= ox <= 2
            &&& -2 <= oy <= 2
            &&& p.x == spec_sat_add_u16((dx as u16), ox)
            &&& p.y == spec_sat_add_u16((dy as u16), oy)
        }
    &&& 3 <= p.life <= 12
}

/// The pool chain of one explosion burst: twenty debris particles of the
/// church subcell at board index `i` inserted in turn.
pub open spec fn spec_burst_chain(i: int, chain: Seq<Seq<Particle>>) -> bool {
    &&& chain.len() == EXPLOSION_PARTICLE_COUNT + 1
    &&& forall|k: int|
        #![trigger chain[k]]
        0 <= k < EXPLOSION_PARTICLE_COUNT ==> exists|p: Particle|
            spec_burst_particle(i, p) && #[trigger] spec_summoned(chain[k], chain[k + 1], p)
}

/// Twenty debris particles of the explosion at board index `i` inserted
/// into the pool in turn.
pub open spec fn spec_burst_emitted(i: int, pre: Seq<Particle>, post: Seq<Particle>) -> bool {
    exists|chain: Seq<Seq<Particle>>|
        #[trigger] spec_burst_chain(i, chain) && chain[0] == pre && chain[
            EXPLOSION_PARTICLE_COUNT as int
        ] == post
}

/// One particle's advance step: one pixel up (wrapping), an even-odds
/// sideways jitter, one tick of lifetime decay, and the exponentially
/// damped horizontal velocity applied at full or reduced strength.
pub open spec fn spec_advanced(pre: Particle, post: Particle) -> bool {
    let hv = pre.horizontal_velocity as int;
    &&& post.y == vstd::wrapping::u16_specs::wrapping_sub(pre.y, 1)
    &&& post.life == (if pre.life >= 1 {
        (pre.life - 1) as u8
    } else {
        0
    })
    &&& post.horizontal_velocity as int == spec_trunc_div(hv, 2)
    &&& exists|jitter: i16, push: i16|
        #![trigger spec_sat_add_u16(vstd::wrapping::u16_specs::wrapping_add_signed(pre.x, jitter), push)]
        {
            &&& -1 <= jitter <= 1
            &&& ((-64 < hv < 64 && push == spec_trunc_div(hv, 4)) || push == spec_trunc_div(
                hv,
                32,
            ))
            &&& post.x == spec_sat_add_u16(
                vstd::wrapping::u16_specs::wrapping_add_signed(pre.x, jitter),
                push,
            )
        }
}

/// Pointwise advance of a whole pool.
pub open spec fn spec_advanced_seq(pre: Seq<Particle>, post: Seq<Particle>) -> bool {
    &&& post.len() == pre.len()
    &&& forall|i: int| 0 <= i < pre.len() ==> spec_advanced(#[trigger] pre[i], post[i])
}

/// Whether an advanced particle survives the cull: lifetime left and a
/// position still within the board's pixel bounds.
pub open spec fn spec_particle_kept(p: Particle) -> bool {
    &&& p.life >= 1
    &&& p.x < CELL_SIZE as int * GRID_SIZE_X as int
    &&& p.y < CELL_SIZE as int * GRID_SIZE_Y as int
}

/// The pool with everything spent or off the board culled, order kept.
pub open spec fn spec_cull(s: Seq<Particle>) -> Seq<Particle> {
    s.filter(|q: Particle| spec_particle_kept(q))
}

/// Whether board index `i` lies in the inclusive coordinate rectangle
/// `[x0, x1] x [y0, y1]`.
pub open spec fn in_coord_rect(x0: int, y0: int, x1: int, y1: int, i: int) -> bool {
    &&& x0 <= x_of(i) <= x1
    &&& y0 <= y_of(i) <= y1
}

/// Pick a spawn site on the outline ring of a building, uniformly at
/// random among the empty cells of the ring, or `None` when the ring is
/// fully occupied. The building is identified by any of its subcells
/// (under the cursor) together with its footprint dimensions; since the
/// footprint itself is occupied, the returned cell is always strictly
/// outside it, within one ring cell of its boundary, and on the board.
pub fn pick_random_location_building_outline(
    board: &Vec<CellState>,
    building_bigsprite_width: u8,
    building_bigsprite_height: u8,
    big_sprite_subcell_index: u8,
    cursor_grid_pos: u16,
    rng: &mut Rng,
) -> (r: Option<u16>)
    requires
        board.len() == AREA,
        cursor_grid_pos < AREA,
        1 <= building_bigsprite_width,
        1 <= building_bigsprite_height,
        ({
            let w = building_bigsprite_width as int;
            let h = building_bigsprite_height as int;
            let j = big_sprite_subcell_index as int;
            let rx = x_of(cursor_grid_pos as int) - j % w;
            let ry = y_of(cursor_grid_pos as int) - j / w;
            &&& j % w <= x_of(cursor_grid_pos as int)
            &&& j / w <= y_of(cursor_grid_pos as int)
            &&& rx + w <= GRID_SIZE_X as int
            &&& ry + h <= GRID_SIZE_Y as int
            &&& forall|m: int|
                0 <= m < AREA && #[trigger] in_coord_rect(rx, ry, rx + w - 1, ry + h - 1, m)
                    ==> board@[m] != CellState::Empty
        }),
    ensures
        ({
            let w = building_bigsprite_width as int;
            let h = building_bigsprite_height as int;
            let j = big_sprite_subcell_index as int;
            let rx = x_of(cursor_grid_pos as int) - j % w;
            let ry = y_of(cursor_grid_pos as int) - j / w;
            &&& (r matches Some(c) ==> {
                &&& c < AREA
                &&& board@[c as int] == CellState::Empty
                &&& in_coord_rect(rx - 1, ry - 1, rx + w, ry + h, c as int)
                &&& !in_coord_rect(rx, ry, rx + w - 1, ry + h - 1, c as int)
            })
            &&& ((r is None) <==> (forall|m: int|
                0 <= m < AREA && #[trigger] in_coord_rect(rx - 1, ry - 1, rx + w, ry + h, m)
                    ==> board@[m] != CellState::Empty))
        }),
{
    let ghost w = building_bigsprite_width as int;
    let ghost h = building_bigsprite_height as int;
    let ghost grx = x_of(cursor_grid_pos as int) - big_sprite_subcell_index as int % w;
    let ghost gry = y_of(cursor_grid_pos as int) - big_sprite_subcell_index as int / w;

    let (building_root_x, building_root_y) = crate::grid::calculate_big_sprite_root_position(
        building_bigsprite_width,
        big_sprite_subcell_index,
        cursor_grid_pos,
    );
    let building_root_x = building_root_x as i16;
    let building_root_y = building_root_y as i16;

    // Collect the in-bounds cells of the rectangle one ring larger than
    // the footprint (the footprint's own cells are occupied and will be
    // dropped by the emptiness filter below).
    let mut possible_cells: Vec<u16> = Vec::new();
    let mut xx: i16 = building_root_x - 1;
    while xx < building_root_x + building_bigsprite_width as i16 + 1
        invariant
            building_root_x == grx,
            building_root_y == gry,
            w == building_bigsprite_width as int,
            h == building_bigsprite_height as int,
            0 <= grx && grx + w <= GRID_SIZE_X as int,
            0 <= gry && gry + h <= GRID_SIZE_Y as int,
            1 <= w <= 255,
            1 <= h <= 255,
            grx - 1 <= xx <= grx + w + 1,
            forall|t: int|
                0 <= t < possible_cells@.len() ==> (#[trigger] possible_cells@[t]) < AREA
                    && in_coord_rect(grx - 1, gry - 1, grx + w, gry + h, possible_cells@[t] as int),
            forall|m: int|
                0 <= m < AREA && #[trigger] in_coord_rect(grx - 1, gry - 1, grx + w, gry + h, m)
                    && x_of(m) < xx ==> possible_cells@.contains(m as u16),
        decreases grx + w + 1 - xx,
    {
        let mut yy: i16 = building_root_y - 1;
        while yy < building_root_y + building_bigsprite_height as i16 + 1
            invariant
                building_root_x == grx,
                building_root_y == gry,
                w == building_bigsprite_width as int,
                h == building_bigsprite_height as int,
                0 <= grx && grx + w <= GRID_SIZE_X as int,
                0 <= gry && gry + h <= GRID_SIZE_Y as int,
                1 <= w <= 255,
                1 <= h <= 255,
                grx - 1 <= xx <= grx + w,
                gry - 1 <= yy <= gry + h + 1,
                forall|t: int|
                    0 <= t < possible_cells@.len() ==> (#[trigger] possible_cells@[t]) < AREA
                        && in_coord_rect(
                        grx - 1,
                        gry - 1,
                        grx + w,
                        gry + h,
                        possible_cells@[t] as int,
                    ),
                forall|m: int|
                    0 <= m < AREA && #[trigger] in_coord_rect(grx - 1, gry - 1, grx + w, gry + h, m)
                        && (x_of(m) < xx || (x_of(m) == xx && y_of(m) < yy))
                        ==> possible_cells@.contains(m as u16),
            decreases gry + h + 1 - yy,
        {
            if xx >= 0 && xx < GRID_SIZE_X as i16 && yy >= 0 && yy < GRID_SIZE_Y as i16 {
                let ghost before = possible_cells@;
                let c = grid_from_vec(xx as u8, yy as u8);
                possible_cells.push(c);
                proof {
                    crate::grid::lemma_idx_coords(xx as int, yy as int);
                    assert(possible_cells@ == before.push(c));
                    assert(possible_cells@[possible_cells@.len() - 1] == c);
                    assert forall|m: u16| before.contains(m) implies possible_cells@.contains(
                        m,
                    ) by {
                        let u = choose|u: int| 0 <= u < before.len() && before[u] == m;
                        assert(possible_cells@[u] == m);
                    };
                }
            }
            yy += 1;
            proof {
                assert forall|m: int|
                    0 <= m < AREA && #[trigger] in_coord_rect(grx - 1, gry - 1, grx + w, gry + h, m)
                        && (x_of(m) < xx || (x_of(m) == xx && y_of(m) < yy))
                    implies possible_cells@.contains(m as u16) by {
                    if x_of(m) == xx && y_of(m) == yy - 1 {
                        assert(idx_of(x_of(m), y_of(m)) == m);
                    }
                };
            }
        }
        xx += 1;
    }

    // Keep only the empty cells.
    let mut filtered: Vec<u16> = Vec::new();
    let mut t: usize = 0;
    while t < possible_cells.len()
        invariant
            forall|u: int|
                0 <= u < possible_cells@.len() ==> (#[trigger] possible_cells@[u]) < AREA
                    && in_coord_rect(grx - 1, gry - 1, grx + w, gry + h, possible_cells@[u] as int),
            t <= possible_cells@.len(),
            board.len() == AREA,
            forall|u: int|
                0 <= u < filtered@.len() ==> {
                    let c = #[trigger] filtered@[u];
                    &&& c < AREA
                    &&& in_coord_rect(grx - 1, gry - 1, grx + w, gry + h, c as int)
                    &&& board@[c as int] == CellState::Empty
                },
            forall|u: int|
                0 <= u < t && board@[(#[trigger] possible_cells@[u]) as int] == CellState::Empty
                    ==> filtered@.contains(possible_cells@[u]),
        decreases possible_cells@.len() - t,
    {
        let c = possible_cells[t];
        if matches!(board[c as usize], CellState::Empty) {
            let ghost before = filtered@;
            filtered.push(c);
            proof {
                assert(filtered@ == before.push(c));
                assert(filtered@[filtered@.len() - 1] == c);
                assert forall|m: u16| before.contains(m) implies filtered@.contains(m) by {
                    let u = choose|u: int| 0 <= u < before.len() && before[u] == m;
                    assert(filtered@[u] == m);
                };
            }
        }
        t += 1;
    }

    if filtered.len() == 0 {
        proof {
            assert forall|m: int|
                0 <= m < AREA && #[trigger] in_coord_rect(grx - 1, gry - 1, grx + w, gry + h, m)
                implies board@[m] != CellState::Empty by {
                if board@[m] == CellState::Empty {
                    assert(possible_cells@.contains(m as u16));
                    let u = choose|u: int|
                        0 <= u < possible_cells@.len() && possible_cells@[u] == m as u16;
                    assert(filtered@.contains(possible_cells@[u]));
                }
            };
        }
        None
    } else {
        let pick = rng.gen_usize_range(0, filtered.len());
        let c = filtered[pick];
        proof {
            if in_coord_rect(grx, gry, grx + w - 1, gry + h - 1, c as int) {
                assert(board@[c as int] != CellState::Empty);
            }
        }
        Some(c)
    }
}

/// Saturating addition of a signed offset to a `u16`.
pub open spec fn spec_sat_add_u16(a: u16, d: i16) -> u16 {
    if a + d < 0 {
        0
    } else if a + d > u16::MAX {
        u16::MAX
    } else {
        (a + d) as u16
    }
}

/// Saturating addition of a signed offset to a `u16`.
fn sat_add_signed_u16(a: u16, d: i16) -> (r: u16)
    ensures
        r == spec_sat_add_u16(a, d),
{
    if d >= 0 {
        let dd = d as u16;
        if a > u16::MAX - dd {
            u16::MAX
        } else {
            a + dd
        }
    } else {
        let dd = (-(d as i32)) as u16;
        if a < dd {
            0
        } else {
            a - dd
        }
    }
}

/// Saturating addition of a signed offset to a `u8`.
pub open spec fn spec_sat_add_u8(a: u8, d: i8) -> u8 {
    if a + d < 0 {
        0
    } else if a + d > u8::MAX {
        u8::MAX
    } else {
        (a + d) as u8
    }
}

/// Saturating addition of a signed offset to a `u8`.
fn sat_add_signed_u8(a: u8, d: i8) -> (r: u8)
    ensures
        r == spec_sat_add_u8(a, d),
{
    if d >= 0 {
        let dd = d as u8;
        if a > u8::MAX - dd {
            u8::MAX
        } else {
            a + dd
        }
    } else {
        let dd = (-(d as i16)) as u8;
        if a < dd {
            0
        } else {
            a - dd
        }
    }
}

/// Division by ten, rounded up.
pub open spec fn spec_div_ceil10(v: int) -> int {
    (v + 9) / 10
}

/// Division by ten, rounded up.
fn div_ceil_10(v: u16) -> (r: u16)
    ensures
        r == spec_div_ceil10(v as int),
{
    let q = v / 10;
    let r = if v % 10 != 0 {
        q + 1
    } else {
        q
    };
    assert(r == spec_div_ceil10(v as int)) by (nonlinear_arith)
        requires
            q == v as int / 10,
            r == if v as int % 10 != 0 {
                q + 1int
            } else {
                q as int
            },
            0 <= v as int,
    ;
    r
}

/// Truncating (round towards zero) division of a signed value by a
/// positive divisor, as the hardware's signed division behaves.
pub open spec fn spec_trunc_div(a: int, b: int) -> int {
    if a >= 0 {
        a / b
    } else {
        -((-a) / b)
    }
}

/// Truncating division of an `i16` by a positive divisor.
fn trunc_div_i16(a: i16, b: i16) -> (r: i16)
    requires
        b >= 1,
        a > i16::MIN,
    ensures
        r == spec_trunc_div(a as int, b as int),
{
    if a >= 0 {
        a / b
    } else {
        -((-a) / b)
    }
}

/// Whether the pixel position lies on the walkable board and its grid
/// cell — pixel coordinates rounded up to cell coordinates — is empty.
pub open spec fn spec_pos_is_empty(g: Seq<CellState>, x: int, y: int) -> bool {
    &&& 0 <= x < CELL_SIZE as int * (GRID_SIZE_X as int - 1)
    &&& 0 <= y < CELL_SIZE as int * (GRID_SIZE_Y as int - 1)
    &&& g[idx_of(spec_div_ceil10(x), spec_div_ceil10(y))] == CellState::Empty
}

/// Whether the pixel position lies on the walkable board and its grid
/// cell is empty.
fn pos_is_empty(grid: &Vec<CellState>, x: i16, y: i16) -> (r: bool)
    requires
        grid.len() == AREA,
    ensures
        r == spec_pos_is_empty(grid@, x as int, y as int),
{
    if crate::grid::pixel_loc_in_grid_bounds(x, y) {
        let cx = div_ceil_10(x as u16);
        let cy = div_ceil_10(y as u16);
        let index = grid_from_vec(cx as u8, cy as u8);
        matches!(grid[index as usize], CellState::Empty)
    } else {
        false
    }
}

/// The cell after one simulation frame: a burning church counts down on
/// the explosion cadence and is destroyed the moment its countdown
/// reaches zero; every other cell is inert.
pub open spec fn spec_cell_step(c: CellState, tick: u8) -> CellState {
    match c {
        CellState::Church(st, j, cd) => {
            if st == BuildingState::Burning {
                if cd >= 1 {
                    if tick % CHURCH_EXPLOSION_FREQUENCY_THING
                        == CHURCH_EXPLOSION_FREQUENCY_THING / 2 {
                        if cd == 1 {
                            CellState::Church(BuildingState::Destroyed, j, 0)
                        } else {
                            CellState::Church(BuildingState::Burning, j, (cd - 1) as u8)
                        }
                    } else {
                        c
                    }
                } else {
                    CellState::Church(BuildingState::Destroyed, j, 0)
                }
            } else {
                c
            }
        },
        _ => c,
    }
}

/// Whether stepping this cell at this frame fires the explosion: a
/// burning church subcell whose countdown falls from one to zero.
pub open spec fn spec_explodes(c: CellState, tick: u8) -> bool {
    match c {
        CellState::Church(st, j, cd) => st == BuildingState::Burning && cd == 1 && tick
            % CHURCH_EXPLOSION_FREQUENCY_THING == CHURCH_EXPLOSION_FREQUENCY_THING / 2,
        _ => false,
    }
}

/// Audio cues one stepped cell raises this frame: the kaboom on an
/// explosion, the countdown cue on a still-burning church's cadence
/// step, and the ambient burn cue of a burning house.
pub open spec fn spec_cell_cues(c: CellState, tick: u8) -> Seq<Noise> {
    match c {
        CellState::Church(st, j, cd) => {
            if st == BuildingState::Burning && cd >= 1 && tick % CHURCH_EXPLOSION_FREQUENCY_THING
                == CHURCH_EXPLOSION_FREQUENCY_THING / 2 {
                if cd == 1 {
                    seq![Noise::KaboomNoise]
                } else {
                    seq![Noise::TungTungTungSahour]
                }
            } else {
                Seq::empty()
            }
        },
        CellState::House(st, _) => {
            if st == BuildingState::Burning {
                seq![Noise::Burn]
            } else {
                Seq::empty()
            }
        },
        CellState::House2(st, _) => {
            if st == BuildingState::Burning {
                seq![Noise::Burn]
            } else {
                Seq::empty()
            }
        },
        _ => Seq::empty(),
    }
}

/// Cues raised by stepping the first `n` cells, in board order.
pub open spec fn cues_upto(b: Seq<CellState>, tick: u8, n: int) -> Seq<Noise>
    decreases n,
{
    if n <= 0 {
        Seq::empty()
    } else {
        cues_upto(b, tick, n - 1) + spec_cell_cues(b[n - 1], tick)
    }
}

/// Number of cells among the first `n` that explode this frame.
pub open spec fn exploding_upto(b: Seq<CellState>, tick: u8, n: int) -> int
    decreases n,
{
    if n <= 0 {
        0
    } else {
        exploding_upto(b, tick, n - 1) + if spec_explodes(b[n - 1], tick) {
            1int
        } else {
            0int
        }
    }
}

/// The exploding-cell count is non-negative and at most `n`.
pub proof fn lemma_exploding_upto_bounds(b: Seq<CellState>, tick: u8, n: int)
    ensures
        0 <= exploding_upto(b, tick, n) <= if n >= 0 {
            n
        } else {
            0
        },
    decreases n,
{
    if n > 0 {
        lemma_exploding_upto_bounds(b, tick, n - 1);
    }
}

/// Pool length after `m` insertions: it grows until it reaches the
/// capacity, where eviction holds it.
pub open spec fn spec_len_after_spawns(len: int, m: int) -> int {
    if len + m <= MAX_PARTICLE_COUNT {
        len + m
    } else {
        MAX_PARTICLE_COUNT as int
    }
}

/// Generator state after the four draws of one debris particle.
pub open spec fn spec_burst_draw(s: u64) -> u64 {
    let s1 = crate::rng::spec_i16_range(s, -2i16, 2i16).0;
    let s2 = crate::rng::spec_i16_range(s1, -2i16, 2i16).0;
    let s3 = crate::rng::lemire_u32(s2, 10, crate::rng::LEMIRE_RETRY_BUDGET as nat).0;
    crate::rng::rng_next(s3)
}

/// Generator state after `t` debris particles' draws.
pub open spec fn spec_burst_rng(s: u64, t: nat) -> u64
    decreases t,
{
    if t == 0 {
        s
    } else {
        spec_burst_draw(spec_burst_rng(s, (t - 1) as nat))
    }
}

/// Generator state after stepping the first `n` cells of the board:
/// only exploding cells draw, twenty debris particles each.
pub open spec fn spec_update_rng(b: Seq<CellState>, tick: u8, s: u64, n: int) -> u64
    decreases n,
{
    if n <= 0 {
        s
    } else {
        let prev = spec_update_rng(b, tick, s, n - 1);
        if spec_explodes(b[n - 1], tick) {
            spec_burst_rng(prev, EXPLOSION_PARTICLE_COUNT as nat)
        } else {
            prev
        }
    }
}

/// One entity's drift step from a generator state: two bounded draws
/// propose a displacement, accepted only when the entity's bounding box
/// lands entirely on empty cells.
pub open spec fn spec_entity_step(g: Seq<CellState>, e: Entity, s: u64) -> (u64, Entity) {
    let (s1, dx) = crate::rng::spec_i16_range(s, -4i16, 4i16);
    let (s2, dy) = crate::rng::spec_i16_range(s1, -4i16, 4i16);
    let nx = spec_sat_add_u16(e.position_x, dx);
    let ny = spec_sat_add_u16(e.position_y, dy);
    let ok = {
        &&& spec_pos_is_empty(g, nx as int, ny as int)
        &&& spec_pos_is_empty(g, nx as int - 8, ny as int)
        &&& spec_pos_is_empty(g, nx as int, ny as int - 8)
        &&& spec_pos_is_empty(g, nx as int - 8, ny as int - 8)
    };
    (
        s2,
        if ok {
            Entity { entity_type: e.entity_type, position_x: nx, position_y: ny }
        } else {
            e
        },
    )
}

/// Generator state and entity list after drifting the entities from
/// index `k` on, in list order: the whole random walk is a function of
/// the board, the list and the starting generator state.
pub open spec fn spec_move_entities(
    g: Seq<CellState>,
    ents: Seq<Entity>,
    s: u64,
    k: int,
) -> (u64, Seq<Entity>)
    decreases ents.len() - k,
{
    if k < 0 || k >= ents.len() {
        (s, ents)
    } else {
        let r = spec_entity_step(g, ents[k], s);
        spec_move_entities(g, ents.update(k, r.1), r.0, k + 1)
    }
}

/// Relation of one `update` frame: every cell stepped through the
/// combustion state machine; the explosion bursts' debris inserted cell
/// by cell, witnessed by the chain of pool states; every entity drifted
/// by the deterministic random walk of the frame's generator state; and
/// exactly the stepped cells' cues appended.
pub open spec fn spec_update_rel(pre: Game, post: Game) -> bool {
    &&& post.wf()
    &&& post.grid@.len() == AREA
    &&& forall|i: int|
        0 <= i < AREA ==> post.grid@[i] == spec_cell_step(#[trigger] pre.grid@[i], pre.tick)
    &&& post.entities@.len() == pre.entities@.len()
    &&& forall|k: int|
        0 <= k < pre.entities@.len() ==> spec_entity_moved(
            post.grid@,
            pre.entities@[k],
            #[trigger] post.entities@[k],
        )
    &&& post.players == pre.players
    &&& post.tick == pre.tick
    &&& post.seed == pre.seed
    &&& post.particles@.len() == spec_len_after_spawns(
        pre.particles@.len() as int,
        EXPLOSION_PARTICLE_COUNT * exploding_upto(pre.grid@, pre.tick, AREA as int),
    )
    &&& exists|pools: Seq<Seq<Particle>>|
        {
            &&& #[trigger] spec_burst_pools(pre.grid@, pre.tick, pools)
            &&& pools[0] == pre.particles@
            &&& pools[AREA as int] == post.particles@
        }
    &&& (post.rng.0, post.entities@) == spec_move_entities(
        post.grid@,
        pre.entities@,
        spec_update_rng(pre.grid@, pre.tick, pre.rng.0, AREA as int),
        0,
    )
    &&& post.cues@ == pre.cues@ + cues_upto(pre.grid@, pre.tick, AREA as int)
}

/// The pool chain of one `update` frame: entry `k` is the pool before
/// cell `k` is stepped; an exploding cell contributes its debris burst,
/// every other cell leaves the pool alone.
pub open spec fn spec_burst_pools(b: Seq<CellState>, tick: u8, pools: Seq<Seq<Particle>>) -> bool {
    &&& pools.len() == AREA + 1
    &&& forall|k: int|
        0 <= k < AREA ==> if spec_explodes(b[k], tick) {
            spec_burst_emitted(k, #[trigger] pools[k], pools[k + 1])
        } else {
            pools[k + 1] == pools[k]
        }
}

/// Relation of one particle frame: the old pool gains the burning-house
/// smoke cell by cell, every particle advances one step, and what is
/// spent or off the board is culled, leaving a pool of live, on-board
/// particles ordered by remaining lifetime. Everything else is untouched.
pub open spec fn spec_update_particles_rel(pre: Game, post: Game) -> bool {
    &&& post.wf()
    &&& forall|i: int|
        0 <= i < post.particles@.len() ==> {
            let p = #[trigger] post.particles@[i];
            &&& p.life >= 1
            &&& p.x < CELL_SIZE as int * GRID_SIZE_X as int
            &&& p.y < CELL_SIZE as int * GRID_SIZE_Y as int
        }
    &&& sorted_by_life(post.particles@)
    &&& exists|pools: Seq<Seq<Particle>>, stepped: Seq<Particle>|
        {
            &&& #[trigger] spec_smoke_chain(pre.grid@, pools, AREA as int)
            &&& pools[0] == pre.particles@
            &&& #[trigger] spec_advanced_seq(pools[AREA as int], stepped)
            &&& post.particles@.to_multiset() == spec_cull(stepped).to_multiset()
        }
    &&& post.grid == pre.grid
    &&& post.entities == pre.entities
    &&& post.players == pre.players
    &&& post.cues == pre.cues
    &&& post.tick == pre.tick
    &&& post.seed == pre.seed
}

/// How an entity may change in one frame: its kind never changes, and it
/// either stays put or moves at most four pixels per axis onto a spot
/// whose four bounding-box corners all rest on empty cells.
pub open spec fn spec_entity_moved(g: Seq<CellState>, old_e: Entity, new_e: Entity) -> bool {
    &&& new_e.entity_type == old_e.entity_type
    &&& (new_e == old_e || {
        let nx = new_e.position_x as int;
        let ny = new_e.position_y as int;
        &&& -4 <= nx - old_e.position_x <= 4
        &&& -4 <= ny - old_e.position_y <= 4
        &&& spec_pos_is_empty(g, nx, ny)
        &&& spec_pos_is_empty(g, nx - 8, ny)
        &&& spec_pos_is_empty(g, nx, ny - 8)
        &&& spec_pos_is_empty(g, nx - 8, ny - 8)
    })
}

impl Game {
    /// Emit the twenty debris particles of the explosion at `index`,
    /// scattered around the cell centre.
    fn emit_burst(particles: &mut Vec<Particle>, rng: &mut Rng, index: u16)
        requires
            index < AREA,
            old(particles).len() <= MAX_PARTICLE_COUNT,
        ensures
            final(particles).len() == spec_len_after_spawns(
                old(particles).len() as int,
                EXPLOSION_PARTICLE_COUNT as int,
            ),
            final(particles).len() <= MAX_PARTICLE_COUNT,
            spec_burst_emitted(index as int, old(particles)@, final(particles)@),
            final(rng).0 == spec_burst_rng(old(rng).0, EXPLOSION_PARTICLE_COUNT as nat),
    {
        let ghost rng0 = rng.0;
        let (cx, cy) = vec_from_grid(index);
        assert(cx < GRID_SIZE_X && cy < GRID_SIZE_Y);
        assert((cx as int) * (CELL_SIZE as int) <= 290 && (cy as int) * (CELL_SIZE as int) <= 290)
            by (nonlinear_arith)
            requires
                cx < 30,
                cy < 30,
        ;
        let dst_x: u16 = cx as u16 * CELL_SIZE as u16 + 5;
        let dst_y: u16 = cy as u16 * CELL_SIZE as u16 + 5;

        let ghost base = particles@.len() as int;
        let ghost mut chain: Seq<Seq<Particle>> = seq![particles@];
        let ghost mut emitted: Seq<Particle> = Seq::empty();
        let mut t: usize = 0;
        while t < EXPLOSION_PARTICLE_COUNT
            invariant
                t <= EXPLOSION_PARTICLE_COUNT,
                index < AREA,
                dst_x as int == x_of(index as int) * CELL_SIZE as int + 5,
                dst_y as int == y_of(index as int) * CELL_SIZE as int + 5,
                base <= MAX_PARTICLE_COUNT,
                base == old(particles)@.len() as int,
                particles@.len() == spec_len_after_spawns(base, t as int),
                chain.len() == t + 1,
                emitted.len() == t,
                rng.0 == spec_burst_rng(rng0, t as nat),
                chain[0] == old(particles)@,
                chain.last() == particles@,
                forall|k: int|
                    #![trigger emitted[k]]
                    0 <= k < t ==> spec_burst_particle(index as int, emitted[k]) && spec_summoned(
                        chain[k],
                        chain[k + 1],
                        emitted[k],
                    ),
            decreases EXPLOSION_PARTICLE_COUNT - t,
        {
            let rng_offset_x = rng.gen_i16_range(-2, 2);
            let rng_offset_y = rng.gen_i16_range(-2, 2);
            let rng_offset_life = rng.gen_i8_range(-2, 7);
            let velocity = rng.gen_i8_full();

            let debris = Particle {
                x: sat_add_signed_u16(dst_x, rng_offset_x),
                y: sat_add_signed_u16(dst_y, rng_offset_y),
                life: sat_add_signed_u8(5, rng_offset_life),
                horizontal_velocity: velocity,
            };
            let ghost before = particles@;
            let ghost chain_prev = chain;
            let ghost emitted_prev = emitted;
            Self::summon_particle(particles, debris);
            proof {
                chain = chain.push(particles@);
                emitted = emitted.push(debris);
                assert(spec_sat_add_u16(((x_of(index as int) * CELL_SIZE as int + 5) as u16),
                    rng_offset_x) == debris.x);
                assert(spec_sat_add_u16(((y_of(index as int) * CELL_SIZE as int + 5) as u16),
                    rng_offset_y) == debris.y);
                assert(spec_burst_particle(index as int, debris));
                assert forall|k: int| #![trigger emitted[k]] 0 <= k < t + 1 implies
                    spec_burst_particle(index as int, emitted[k]) && spec_summoned(
                    chain[k],
                    chain[k + 1],
                    emitted[k],
                ) by {
                    if k < t {
                        assert(emitted[k] == emitted_prev[k]);
                        assert(chain[k] == chain_prev[k] && chain[k + 1] == chain_prev[k + 1]);
                    } else {
                        assert(emitted[k] == debris);
                        assert(chain[k] == before && chain[k + 1] == particles@);
                    }
                };
            }
            t += 1;
        }
        proof {
            assert forall|k: int| #![trigger chain[k]] 0 <= k < EXPLOSION_PARTICLE_COUNT implies
                exists|p: Particle|
                    spec_burst_particle(index as int, p) && #[trigger] spec_summoned(
                    chain[k],
                    chain[k + 1],
                    p,
                ) by {
                assert(spec_burst_particle(index as int, emitted[k]));
                assert(spec_summoned(chain[k], chain[k + 1], emitted[k]));
            };
            assert(spec_burst_chain(index as int, chain));
            assert(chain[EXPLOSION_PARTICLE_COUNT as int] == particles@);
        }
    }

    /// One simulation frame over the board and the entities.
    ///
    /// Every cell is stepped through the combustion state machine; a
    /// church explosion fires the kaboom cue and a burst of twenty
    /// debris particles, a still-burning church fires a countdown cue,
    /// and burning houses keep the burn cue alive. Afterwards every
    /// entity proposes a random drift of at most four pixels per axis,
    /// accepted only when its whole bounding box lands on empty cells.
    pub fn update(&mut self)
        requires
            old(self).wf(),
        ensures
            final(self).wf(),
            spec_update_rel(*old(self), *final(self)),
    {
        let ghost g0 = self.grid@;
        let ghost tick0 = self.tick;
        let ghost p0 = self.particles@.len() as int;
        let ghost pool_start = self.particles@;
        let ghost s_start = self.rng.0;
        let ghost mut ppool: Seq<Seq<Particle>> = seq![pool_start];
        let ghost cues0 = self.cues@;

        let mut new_grid: Vec<CellState> = Vec::new();
        let mut i: usize = 0;
        while i < AREA
            invariant
                old(self).wf(),
                self.grid@ == g0,
                self.grid.len() == AREA,
                g0 == old(self).grid@,
                tick0 == old(self).tick,
                p0 == old(self).particles@.len() as int,
                p0 <= MAX_PARTICLE_COUNT,
                self.players == old(self).players,
                self.entities == old(self).entities,
                self.tick == old(self).tick,
                self.seed == old(self).seed,
                i <= AREA,
                new_grid@.len() == i,
                forall|k: int|
                    0 <= k < i ==> new_grid@[k] == spec_cell_step(#[trigger] g0[k], tick0),
                self.particles@.len() == spec_len_after_spawns(
                    p0,
                    EXPLOSION_PARTICLE_COUNT * exploding_upto(g0, tick0, i as int),
                ),
                pool_start == old(self).particles@,
                self.rng.0 == spec_update_rng(g0, tick0, s_start, i as int),
                ppool.len() == i + 1,
                ppool[0] == pool_start,
                ppool.last() == self.particles@,
                forall|k: int|
                    0 <= k < i ==> if spec_explodes(g0[k], tick0) {
                        spec_burst_emitted(k, #[trigger] ppool[k], ppool[k + 1])
                    } else {
                        ppool[k + 1] == ppool[k]
                    },
                cues0 == old(self).cues@,
                self.cues@ == cues0 + cues_upto(g0, tick0, i as int),
            decreases AREA - i,
        {
            proof {
                lemma_exploding_upto_bounds(g0, tick0, i as int);
            }
            let ghost cell_pool_pre = self.particles@;
            let state = self.grid[i];
            match state {
                CellState::Church(BuildingState::Burning, j, cd) if cd >= 1 => {
                    if self.tick % CHURCH_EXPLOSION_FREQUENCY_THING
                        == CHURCH_EXPLOSION_FREQUENCY_THING / 2 {
                        let new_cd = cd - 1;
                        if new_cd > 0 {
                            new_grid.push(CellState::Church(BuildingState::Burning, j, new_cd));
                            self.cues.push(Noise::TungTungTungSahour);
                        } else {
                            new_grid.push(CellState::Church(BuildingState::Destroyed, j, 0));
                            self.cues.push(Noise::KaboomNoise);
                            Self::emit_burst(&mut self.particles, &mut self.rng, i as u16);
                        }
                    } else {
                        new_grid.push(state);
                    }
                },
                CellState::Church(BuildingState::Burning, j, _) => {
                    // A burning church whose countdown already reached zero.
                    new_grid.push(CellState::Church(BuildingState::Destroyed, j, 0));
                },
                CellState::House(BuildingState::Burning, _)
                | CellState::House2(BuildingState::Burning, _) => {
                    new_grid.push(state);
                    self.cues.push(Noise::Burn);
                },
                _ => {
                    new_grid.push(state);
                },
            }
            proof {
                assert(exploding_upto(g0, tick0, i as int + 1) == exploding_upto(
                    g0,
                    tick0,
                    i as int,
                ) + if spec_explodes(g0[i as int], tick0) {
                    1int
                } else {
                    0int
                });
                assert(cues_upto(g0, tick0, i as int + 1) == cues_upto(g0, tick0, i as int)
                    + spec_cell_cues(g0[i as int], tick0));
                ppool = ppool.push(self.particles@);
                assert(ppool[i as int] == cell_pool_pre);
                assert(ppool[i as int + 1] == self.particles@);
            }
            i += 1;
        }

        self.grid = new_grid;
        proof {
            assert forall|k: int|
                0 <= k < AREA implies variant_tag(#[trigger] self.grid@[k]) == variant_tag(g0[k])
                && subcell_index(self.grid@[k]) == subcell_index(g0[k]) by {}
            lemma_same_shape_preserves_wf(g0, self.grid@);
        }

        proof {
            assert(spec_burst_pools(g0, tick0, ppool));
            assert(ppool[AREA as int] == self.particles@);
            assert(self.rng.0 == spec_update_rng(g0, tick0, s_start, AREA as int));
        }

        // Random-walk drift with bounding-box collision rejection.
        let ghost e0 = self.entities@;
        let ghost particles_mid = self.particles@;
        let ghost cues_mid = self.cues@;
        let ghost s_mid = self.rng.0;
        let ghost move_target = spec_move_entities(self.grid@, e0, s_mid, 0);
        let mut k: usize = 0;
        while k < self.entities.len()
            invariant
                self.grid.len() == AREA,
                board_wf(self.grid@),
                forall|i2: int|
                    0 <= i2 < AREA ==> self.grid@[i2] == spec_cell_step(
                        #[trigger] g0[i2],
                        tick0,
                    ),
                g0 == old(self).grid@,
                tick0 == old(self).tick,
                self.players == old(self).players,
                self.tick == old(self).tick,
                self.seed == old(self).seed,
                self.particles@ == particles_mid,
                self.cues@ == cues_mid,
                cues0 == old(self).cues@,
                cues_mid == cues0 + cues_upto(g0, tick0, AREA as int),
                pool_start == old(self).particles@,
                spec_burst_pools(g0, tick0, ppool),
                ppool[0] == pool_start,
                ppool[AREA as int] == particles_mid,
                e0 == old(self).entities@,
                forall|j: int| 0 <= j < e0.len() ==> entity_wf(#[trigger] e0[j]),
                self.entities@.len() == e0.len(),
                k <= e0.len(),
                forall|j: int|
                    0 <= j < k ==> spec_entity_moved(
                        self.grid@,
                        e0[j],
                        #[trigger] self.entities@[j],
                    ),
                forall|j: int| k <= j < e0.len() ==> self.entities@[j] == e0[j],
                forall|j: int|
                    0 <= j < self.entities@.len() ==> entity_wf(#[trigger] self.entities@[j]),
                s_mid == spec_update_rng(g0, tick0, old(self).rng.0, AREA as int),
                move_target == spec_move_entities(self.grid@, e0, s_mid, 0),
                move_target == spec_move_entities(self.grid@, self.entities@, self.rng.0, k as int),
            decreases self.entities@.len() - k,
        {
            let ghost ents_head = self.entities@;
            let ghost s_head = self.rng.0;
            let ent = self.entities[k];
            let dx = self.rng.gen_i16_range(-4, 4);
            let dy = self.rng.gen_i16_range(-4, 4);
            let new_position_x = sat_add_signed_u16(ent.position_x, dx);
            let new_position_y = sat_add_signed_u16(ent.position_y, dy);
            let nx = new_position_x as i16;
            let ny = new_position_y as i16;

            let corner_1 = pos_is_empty(&self.grid, nx, ny);
            let corner_2 = pos_is_empty(&self.grid, nx - 8, ny);
            let corner_3 = pos_is_empty(&self.grid, nx, ny - 8);
            let corner_4 = pos_is_empty(&self.grid, nx - 8, ny - 8);

            if corner_1 && corner_2 && corner_3 && corner_4 {
                self.entities[k] = Entity {
                    entity_type: ent.entity_type,
                    position_x: new_position_x,
                    position_y: new_position_y,
                };
            }
            proof {
                // One unfolding of the drift recursion along this step.
                assert(spec_entity_step(self.grid@, ents_head[k as int], s_head) == (
                    self.rng.0,
                    self.entities@[k as int],
                ));
                assert(ents_head.update(k as int, self.entities@[k as int]) =~= self.entities@);
                assert(spec_move_entities(self.grid@, ents_head, s_head, k as int)
                    == spec_move_entities(self.grid@, self.entities@, self.rng.0, k as int + 1));
            }
            k += 1;
        }
        proof {
            assert((self.rng.0, self.entities@) == spec_move_entities(
                self.grid@,
                e0,
                s_mid,
                0,
            ));
        }
    }

    /// One particle frame.
    ///
    /// Burning house roots emit three smoke particles at their door.
    /// Then every particle drifts one pixel up, jitters sideways,
    /// decays its lifetime and applies its exponentially damped
    /// horizontal velocity; what is spent or off the board is culled,
    /// and the pool is re-ordered by remaining lifetime.
    /// Emit the three smoke particles of the burning house rooted at
    /// `index` from its door position.
    fn emit_smoke(particles: &mut Vec<Particle>, rng: &mut Rng, index: u16)
        requires
            index < AREA,
            old(particles).len() <= MAX_PARTICLE_COUNT,
        ensures
            final(particles).len() <= MAX_PARTICLE_COUNT,
            spec_smoke_emitted(index as int, old(particles)@, final(particles)@),
    {
        let (cx, cy) = vec_from_grid(index);
        assert(cx < GRID_SIZE_X && cy < GRID_SIZE_Y);
        assert((cx as int) * (CELL_SIZE as int) <= 290 && (cy as int) * (CELL_SIZE as int) <= 290)
            by (nonlinear_arith)
            requires
                cx < 30,
                cy < 30,
        ;
        let dst_x: u16 = cx as u16 * CELL_SIZE as u16 + 8;
        let dst_y: u16 = cy as u16 * CELL_SIZE as u16 + 14;

        let rng_offset_x = rng.gen_u16_range(0, 4);
        let rng_offset_life = rng.gen_u8_range(0, 4);
        let p1 = Particle {
            x: dst_x + rng_offset_x,
            y: dst_y,
            life: 16 + rng_offset_life,
            horizontal_velocity: 0,
        };
        Self::summon_particle(particles, p1);
        let ghost q1 = particles@;

        let rng_offset_x = rng.gen_u16_range(0, 4);
        let rng_offset_life = rng.gen_u8_range(0, 4);
        let p2 = Particle {
            x: dst_x + rng_offset_x,
            y: dst_y,
            life: 16 + rng_offset_life,
            horizontal_velocity: 0,
        };
        Self::summon_particle(particles, p2);
        let ghost q2 = particles@;

        let rng_offset_x = rng.gen_u16_range(0, 4);
        let rng_offset_life = rng.gen_u8_range(0, 4);
        let p3 = Particle {
            x: dst_x + rng_offset_x,
            y: dst_y,
            life: 16 + rng_offset_life,
            horizontal_velocity: 0,
        };
        Self::summon_particle(particles, p3);

        proof {
            assert(spec_smoke_particle(index as int, p1));
            assert(spec_smoke_particle(index as int, p2));
            assert(spec_smoke_particle(index as int, p3));
            assert(spec_summoned(old(particles)@, q1, p1));
            assert(spec_summoned(q1, q2, p2));
            assert(spec_summoned(q2, particles@, p3));
        }
    }

    #[verifier::rlimit(100)]
    pub fn update_particles(&mut self)
        requires
            old(self).wf(),
        ensures
            final(self).wf(),
            spec_update_particles_rel(*old(self), *final(self)),
    {
        let ghost b0 = self.grid@;
        let ghost pool0 = self.particles@;
        let ghost mut pools: Seq<Seq<Particle>> = seq![pool0];

        // Smoke from every burning house's root subcell.
        let mut i: usize = 0;
        while i < AREA
            invariant
                old(self).wf(),
                self.grid == old(self).grid,
                b0 == old(self).grid@,
                pool0 == old(self).particles@,
                self.entities == old(self).entities,
                self.players == old(self).players,
                self.cues == old(self).cues,
                self.tick == old(self).tick,
                self.seed == old(self).seed,
                self.particles@.len() <= MAX_PARTICLE_COUNT,
                i <= AREA,
                pools.len() == i + 1,
                pools[0] == pool0,
                pools.last() == self.particles@,
                forall|k: int|
                    0 <= k < i ==> spec_smoke_cell(b0[k], k, #[trigger] pools[k], pools[k + 1]),
            decreases AREA - i,
        {
            let ghost pre_cell = self.particles@;
            let state = self.grid[i];
            match state {
                CellState::House(BuildingState::Burning, 0)
                | CellState::House2(BuildingState::Burning, 0) => {
                    Self::emit_smoke(&mut self.particles, &mut self.rng, i as u16);
                    proof {
                        assert(spec_smoke_cell(b0[i as int], i as int, pre_cell, self.particles@));
                    }
                },
                _ => {
                    proof {
                        assert(spec_smoke_cell(b0[i as int], i as int, pre_cell, self.particles@));
                    }
                },
            }
            proof {
                pools = pools.push(self.particles@);
                assert(pools[i as int] == pre_cell);
                assert(pools[i as int + 1] == self.particles@);
            }
            i += 1;
        }

        // Advance every particle one step.
        let ghost smoked = self.particles@;
        let mut p: usize = 0;
        while p < self.particles.len()
            invariant
                old(self).wf(),
                self.grid == old(self).grid,
                self.entities == old(self).entities,
                self.players == old(self).players,
                self.cues == old(self).cues,
                self.tick == old(self).tick,
                self.seed == old(self).seed,
                self.particles@.len() <= MAX_PARTICLE_COUNT,
                self.particles@.len() == smoked.len(),
                p <= smoked.len(),
                forall|j: int| 0 <= j < p ==> spec_advanced(#[trigger] smoked[j], self.particles@[j]),
                forall|j: int| p <= j < smoked.len() ==> self.particles@[j] == smoked[j],
            decreases self.particles@.len() - p,
        {
            let pt = self.particles[p];
            let mut x = pt.x;
            let y = pt.y.wrapping_sub(1);

            // Sideways jitter with even odds.
            let ghost mut jit: i16 = 0;
            if self.rng.gen_bool() {
                let jitter = self.rng.gen_i16_range(-1, 1);
                x = x.wrapping_add_signed(jitter);
                proof {
                    jit = jitter;
                }
            }
            let ghost x_mid = x;

            let life = pt.life.saturating_sub(1);

            // Exponentially damped horizontal velocity.
            let hv = pt.horizontal_velocity;
            let small = hv > -64 && hv < 64;
            let fast_push = small && self.rng.gen_bool();
            let push_amount: i16 = if fast_push {
                trunc_div_i16(hv as i16, 4)
            } else {
                trunc_div_i16(hv as i16, 32)
            };
            x = sat_add_signed_u16(x, push_amount);
            let hv2_16 = trunc_div_i16(hv as i16, 2);
            let hv2 = hv2_16 as i8;

            let stepped_particle = Particle { x, y, life, horizontal_velocity: hv2 };
            proof {
                assert(x_mid == vstd::wrapping::u16_specs::wrapping_add_signed(pt.x, jit));
                assert(stepped_particle.x == spec_sat_add_u16(
                    vstd::wrapping::u16_specs::wrapping_add_signed(pt.x, jit),
                    push_amount,
                ));
                assert(spec_advanced(pt, stepped_particle));
            }
            self.particles[p] = stepped_particle;
            p += 1;
        }

        // Cull what is spent or has left the board.
        let ghost stepped = self.particles@;
        let bound_x: u16 = CELL_SIZE as u16 * GRID_SIZE_X as u16;
        let bound_y: u16 = CELL_SIZE as u16 * GRID_SIZE_Y as u16;
        let mut kept: Vec<Particle> = Vec::new();
        let mut p: usize = 0;
        while p < self.particles.len()
            invariant
                old(self).wf(),
                self.grid == old(self).grid,
                self.entities == old(self).entities,
                self.players == old(self).players,
                self.cues == old(self).cues,
                self.tick == old(self).tick,
                self.seed == old(self).seed,
                self.particles@.len() <= MAX_PARTICLE_COUNT,
                self.particles@ == stepped,
                bound_x == CELL_SIZE as int * GRID_SIZE_X as int,
                bound_y == CELL_SIZE as int * GRID_SIZE_Y as int,
                p <= stepped.len(),
                kept@.len() <= p,
                kept@ == spec_cull(stepped.subrange(0, p as int)),
                forall|j: int|
                    0 <= j < kept@.len() ==> spec_particle_kept(#[trigger] kept@[j]),
            decreases self.particles@.len() - p,
        {
            let pt = self.particles[p];
            let ghost sub = stepped.subrange(0, p as int);
            if pt.life > 0 && pt.x < bound_x && pt.y < bound_y {
                kept.push(pt);
            }
            proof {
                reveal(Seq::filter);
                let sub1 = stepped.subrange(0, p as int + 1);
                assert(sub1.drop_last() =~= sub);
                assert(sub1.last() == stepped[p as int]);
                assert(spec_cull(sub1) == if spec_particle_kept(stepped[p as int]) {
                    spec_cull(sub).push(stepped[p as int])
                } else {
                    spec_cull(sub)
                });
                assert(kept@ == spec_cull(stepped.subrange(0, p as int + 1)));
            }
            p += 1;
        }
        self.particles = kept;
        proof {
            assert(stepped.subrange(0, stepped.len() as int) =~= stepped);
        }

        let ghost culled = self.particles@;
        sort_particles_by_life(&mut self.particles);
        proof {
            broadcast use vstd::seq_lib::group_to_multiset_ensures;

            assert forall|j: int| 0 <= j < self.particles@.len() implies spec_particle_kept(
                #[trigger] self.particles@[j],
            ) by {
                assert(self.particles@.to_multiset().contains(self.particles@[j]));
                assert(culled.to_multiset().contains(self.particles@[j]));
                assert(culled.contains(self.particles@[j]));
            };
            assert(spec_smoke_chain(b0, pools, AREA as int));
            assert(pools[AREA as int] == smoked);
            assert(spec_advanced_seq(pools[AREA as int], stepped));
            assert(self.particles@.to_multiset() == spec_cull(stepped).to_multiset());
        }
    }
}

} // verus!
