use particle_party::category::Category;
use particle_party::integrate::apply_forces;
use particle_party::matrix::CoeffMatrix;
use particle_party::particle::{Particle, ParticleStore};
use particle_party::session::{Session, SimConfig};
use particle_party::sqrt::isqrt;
use particle_party::units::Vec2;

#[test]
fn isqrt_rounds_down() {
    assert_eq!(isqrt(0), 0);
    assert_eq!(isqrt(1), 1);
    assert_eq!(isqrt(15), 3);
    assert_eq!(isqrt(16), 4);
    assert_eq!(isqrt(400_000_000), 20_000);
    assert_eq!(isqrt(400_000_001), 20_000);
    assert_eq!(isqrt(u64::MAX), 4_294_967_295);
}

#[test]
fn apply_forces_adds_to_velocity_only() {
    let mut store = ParticleStore {
        particles: vec![Particle {
            pos: Vec2 { x: 1_000, y: 2_000 },
            vel: Vec2 { x: 10, y: -20 },
            category: Category::Red,
        }],
        half_width: 100_000,
        half_height: 100_000,
    };
    let forces = vec![Vec2 { x: 5, y: 7 }];
    apply_forces(&mut store, &forces);
    let p = store.particle(0);
    assert_eq!(p.vel, Vec2 { x: 15, y: -13 });
    assert_eq!(p.pos, Vec2 { x: 1_000, y: 2_000 });
    assert_eq!(p.category, Category::Red);
}

#[test]
fn constant_force_accumulates_linearly() {
    // Positions are advanced by the host, never here, so the pair
    // geometry — and with it the force — stays constant across ticks:
    // after k ticks the velocity is exactly k times the single-tick
    // force.
    let mut config = SimConfig::default();
    config.red_count = 2;
    config.blue_count = 0;
    config.green_count = 0;
    config.yellow_count = 0;
    config.base_gravity = 10_000;
    config.matrix = CoeffMatrix::default();
    config.matrix.set(Category::Red, Category::Red, 1_000);
    let mut session = Session::new(config);
    session.store = ParticleStore {
        particles: vec![
            Particle {
                pos: Vec2 { x: 0, y: 0 },
                vel: Vec2 { x: 0, y: 0 },
                category: Category::Red,
            },
            Particle {
                pos: Vec2 { x: 20_000, y: 0 },
                vel: Vec2 { x: 0, y: 0 },
                category: Category::Red,
            },
        ],
        half_width: 100_000,
        half_height: 100_000,
    };
    for _ in 0..3 {
        session.tick();
    }
    assert_eq!(session.store.particle(0).vel, Vec2 { x: 75, y: 0 });
    assert_eq!(session.store.particle(1).vel, Vec2 { x: -75, y: 0 });
    assert_eq!(session.store.particle(0).pos, Vec2 { x: 0, y: 0 });
    assert_eq!(session.store.particle(1).pos, Vec2 { x: 20_000, y: 0 });
}

#[test]
fn tick_reads_live_coefficient_edits() {
    let mut config = SimConfig::default();
    config.red_count = 2;
    config.blue_count = 0;
    config.green_count = 0;
    config.yellow_count = 0;
    config.base_gravity = 10_000;
    let mut session = Session::new(config);
    session.store = ParticleStore {
        particles: vec![
            Particle {
                pos: Vec2 { x: 0, y: 0 },
                vel: Vec2 { x: 0, y: 0 },
                category: Category::Red,
            },
            Particle {
                pos: Vec2 { x: 20_000, y: 0 },
                vel: Vec2 { x: 0, y: 0 },
                category: Category::Red,
            },
        ],
        half_width: 100_000,
        half_height: 100_000,
    };
    session.update_coefficient(Category::Red, Category::Red, -1_000);
    session.tick();
    // The edited coefficient acts on the very next tick: repulsion.
    assert_eq!(session.store.particle(0).vel, Vec2 { x: -25, y: 0 });
    assert_eq!(session.store.particle(1).vel, Vec2 { x: 25, y: 0 });
}
