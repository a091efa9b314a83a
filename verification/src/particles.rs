//! The bounded particle pool.
//!
//! Particles are ephemeral visual effects raised by building combustion.
//! The pool is kept ordered by remaining lifetime; insertion past the
//! capacity evicts a particle with the lowest remaining lifetime, so the
//! pool never grows unbounded even under a burst of combustion events.

use vstd::prelude::*;

verus! {

broadcast use vstd::seq_lib::group_to_multiset_ensures;

/// Capacity of the particle pool: one more spawn past this bound evicts.
pub const MAX_PARTICLE_COUNT: usize = 300;

/// An ephemeral visual effect: pixel position, remaining lifetime in
/// particle ticks, and a horizontal velocity that decays exponentially.
#[derive(Clone, Copy, PartialEq, Eq, Structural, Debug)]
pub struct Particle {
    pub x: u16,
    pub y: u16,
    pub life: u8,
    pub horizontal_velocity: i8,
}

/// The pool is ordered by ascending remaining lifetime.
pub open spec fn sorted_by_life(s: Seq<Particle>) -> bool {
    forall|i: int, j: int| 0 <= i < j < s.len() ==> s[i].life <= s[j].life
}

/// Sort the pool by ascending remaining lifetime (insertion sort). The
/// result is a permutation of the input.
pub fn sort_particles_by_life(particles: &mut Vec<Particle>)
    ensures
        final(particles)@.len() == old(particles)@.len(),
        final(particles)@.to_multiset() == old(particles)@.to_multiset(),
        sorted_by_life(final(particles)@),
{
    if particles.len() <= 1 {
        return ;
    }
    let mut i: usize = 1;
    while i < particles.len()
        invariant
            1 <= i <= particles@.len(),
            particles@.len() == old(particles)@.len(),
            particles@.to_multiset() == old(particles)@.to_multiset(),
            sorted_by_life(particles@.subrange(0, i as int)),
        decreases particles@.len() - i,
    {
        let ghost before = particles@;
        let x = particles.remove(i);
        let mut pos: usize = 0;
        while pos < i && particles[pos].life <= x.life
            invariant
                pos <= i,
                i < before.len(),
                particles@ == before.remove(i as int),
                x == before[i as int],
                forall|k: int| 0 <= k < pos ==> particles@[k].life <= x.life,
            decreases i - pos,
        {
            pos += 1;
        }
        let ghost exhausted = !(pos < i);
        particles.insert(pos, x);
        proof {
            let s = before.remove(i as int);
            before.remove_ensures(i as int);
            s.insert_ensures(pos as int, x);
            // The removed element is put back: same multiset as before.
            assert(particles@.to_multiset() =~= before.to_multiset());
            // The sorted prefix grew by one: everything before the
            // insertion point is at most `x.life`, everything the
            // insertion shifted right is above it.
            assert(forall|k1: int, k2: int|
                0 <= k1 < k2 < i ==> s[k1].life <= s[k2].life) by {
                assert(forall|k: int|
                    0 <= k < i ==> s[k] == #[trigger] before.subrange(0, i as int)[k]);
            };
            assert forall|a: int, b: int|
                0 <= a < b < i + 1 implies particles@[a].life <= particles@[b].life by {
                if !exhausted {
                    assert(s[pos as int].life > x.life);
                }
            };
            assert(sorted_by_life(particles@.subrange(0, i as int + 1))) by {
                assert(forall|k: int|
                    0 <= k < i + 1 ==> #[trigger] particles@.subrange(0, i as int + 1)[k]
                        == particles@[k]);
            };
        }
        i += 1;
    }
    proof {
        if particles@.len() > 0 {
            assert(particles@.subrange(0, particles@.len() as int) =~= particles@);
        }
    }
}

} // verus!
