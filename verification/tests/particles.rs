use village_siege::particles::{sort_particles_by_life, Particle, MAX_PARTICLE_COUNT};
use village_siege::sim::Game;

fn particle(life: u8) -> Particle {
    Particle { x: 10, y: 10, life, horizontal_velocity: 0 }
}

#[test]
fn pool_never_grows_past_capacity() {
    let mut pool: Vec<Particle> = Vec::new();
    for i in 0..1000u32 {
        Game::summon_particle(&mut pool, particle((i % 200) as u8 + 1));
        assert!(pool.len() <= MAX_PARTICLE_COUNT);
    }
    assert_eq!(pool.len(), MAX_PARTICLE_COUNT);
}

#[test]
fn within_capacity_spawn_appends() {
    let mut pool: Vec<Particle> = vec![particle(9), particle(3)];
    Game::summon_particle(&mut pool, particle(7));
    assert_eq!(pool.len(), 3);
    assert_eq!(pool[2], particle(7));
    assert_eq!(pool[0], particle(9));
}

#[test]
fn eviction_drops_a_lowest_lifetime_particle() {
    // Fill to capacity with one uniquely short-lived particle.
    let mut pool: Vec<Particle> = Vec::new();
    for _ in 0..MAX_PARTICLE_COUNT - 1 {
        Game::summon_particle(&mut pool, particle(200));
    }
    Game::summon_particle(&mut pool, particle(3));
    assert_eq!(pool.len(), MAX_PARTICLE_COUNT);

    // The next spawn evicts: the life-3 particle is the unique minimum.
    Game::summon_particle(&mut pool, particle(100));
    assert_eq!(pool.len(), MAX_PARTICLE_COUNT);
    assert!(pool.iter().all(|p| p.life != 3));
    assert_eq!(pool.iter().filter(|p| p.life == 100).count(), 1);
    assert_eq!(pool.iter().filter(|p| p.life == 200).count(), MAX_PARTICLE_COUNT - 1);
}

#[test]
fn sort_orders_by_ascending_lifetime() {
    let mut pool: Vec<Particle> = vec![
        particle(9),
        particle(1),
        particle(200),
        particle(1),
        particle(42),
    ];
    let mut lives_before: Vec<u8> = pool.iter().map(|p| p.life).collect();
    sort_particles_by_life(&mut pool);
    let lives_after: Vec<u8> = pool.iter().map(|p| p.life).collect();
    assert_eq!(lives_after, vec![1, 1, 9, 42, 200]);
    lives_before.sort();
    assert_eq!(lives_after, lives_before);
}
