use particle_party::category::Category;
use particle_party::force::compute_forces;
use particle_party::matrix::CoeffMatrix;
use particle_party::particle::{Particle, ParticleStore};
use particle_party::units::Vec2;

fn particle_at(x: i64, y: i64, category: Category) -> Particle {
    Particle { pos: Vec2 { x, y }, vel: Vec2 { x: 0, y: 0 }, category }
}

fn store_of(particles: Vec<Particle>) -> ParticleStore {
    ParticleStore { particles, half_width: 1_000_000, half_height: 1_000_000 }
}

#[test]
fn empty_store_no_forces() {
    let store = store_of(vec![]);
    let forces = compute_forces(&store, &CoeffMatrix::default(), 100_000);
    assert_eq!(forces.len(), 0);
}

#[test]
fn single_particle_no_force() {
    let store = store_of(vec![particle_at(123, -456, Category::Green)]);
    let forces = compute_forces(&store, &CoeffMatrix::default(), 100_000);
    assert_eq!(forces.len(), 1);
    assert_eq!(forces[0], Vec2 { x: 0, y: 0 });
}

#[test]
fn pair_at_cutoff_distance_contributes_nothing() {
    // Exactly 10 units apart: at the cutoff, not beyond it.
    let store = store_of(vec![
        particle_at(0, 0, Category::Red),
        particle_at(10_000, 0, Category::Red),
    ]);
    let forces = compute_forces(&store, &CoeffMatrix::default(), 100_000);
    assert_eq!(forces[0], Vec2 { x: 0, y: 0 });
    assert_eq!(forces[1], Vec2 { x: 0, y: 0 });
}

#[test]
fn pair_inside_cutoff_contributes_nothing() {
    let store = store_of(vec![
        particle_at(0, 0, Category::Blue),
        particle_at(3_000, 4_000, Category::Yellow),
    ]);
    let forces = compute_forces(&store, &CoeffMatrix::default(), 100_000);
    assert_eq!(forces[0], Vec2 { x: 0, y: 0 });
    assert_eq!(forces[1], Vec2 { x: 0, y: 0 });
}

#[test]
fn attraction_exact_magnitude() {
    // coeff(Red, Red) = +1.0, base gravity 10.0, 20 units apart on the
    // x-axis: each force points toward the other particle with
    // magnitude 10 / 20^2 = 0.025, exactly 25 thousandths.
    let mut m = CoeffMatrix::default();
    m.set(Category::Red, Category::Red, 1_000);
    let store = store_of(vec![
        particle_at(0, 0, Category::Red),
        particle_at(20_000, 0, Category::Red),
    ]);
    let forces = compute_forces(&store, &m, 10_000);
    assert_eq!(forces[0], Vec2 { x: 25, y: 0 });
    assert_eq!(forces[1], Vec2 { x: -25, y: 0 });
}

#[test]
fn repulsion_points_apart() {
    // Same geometry with coeff(Red, Red) = -1.0: the forces flip away
    // from each other.
    let mut m = CoeffMatrix::default();
    m.set(Category::Red, Category::Red, -1_000);
    let store = store_of(vec![
        particle_at(0, 0, Category::Red),
        particle_at(20_000, 0, Category::Red),
    ]);
    let forces = compute_forces(&store, &m, 10_000);
    assert_eq!(forces[0], Vec2 { x: -25, y: 0 });
    assert_eq!(forces[1], Vec2 { x: 25, y: 0 });
}

#[test]
fn asymmetric_coefficients_use_source_row() {
    // coeff(Red, Blue) = 2.0 but coeff(Blue, Red) = -1.0: the force on
    // the Red particle uses the first, the force on the Blue particle
    // the second, so the magnitudes differ and only one attracts.
    let mut m = CoeffMatrix::default();
    m.set(Category::Red, Category::Blue, 2_000);
    m.set(Category::Blue, Category::Red, -1_000);
    let store = store_of(vec![
        particle_at(0, 0, Category::Red),
        particle_at(20_000, 0, Category::Blue),
    ]);
    let forces = compute_forces(&store, &m, 10_000);
    // Red is attracted toward Blue at twice the base magnitude.
    assert_eq!(forces[0], Vec2 { x: 50, y: 0 });
    // Blue is repelled away from Red at the base magnitude.
    assert_eq!(forces[1], Vec2 { x: 25, y: 0 });
}

#[test]
fn oblique_pair_rounds_toward_zero() {
    // A 3-4-5 triangle scaled to 30-40-50 units: r = 50 units, the
    // axis magnitudes truncate to whole thousandths.
    let mut m = CoeffMatrix::default();
    m.set(Category::Red, Category::Red, 1_000);
    let store = store_of(vec![
        particle_at(0, 0, Category::Red),
        particle_at(30_000, 40_000, Category::Red),
    ]);
    let forces = compute_forces(&store, &m, 10_000);
    // a2 = (1000 * 10000 * 1000) / 50000^2 = 4; x: 4 * 30000 / 50000 = 2;
    // y: 4 * 40000 / 50000 = 3, both toward the other particle.
    assert_eq!(forces[0], Vec2 { x: 2, y: 3 });
    assert_eq!(forces[1], Vec2 { x: -2, y: -3 });
}

#[test]
fn zero_gravity_no_force() {
    let store = store_of(vec![
        particle_at(0, 0, Category::Red),
        particle_at(20_000, 0, Category::Red),
    ]);
    let forces = compute_forces(&store, &CoeffMatrix::default(), 0);
    assert_eq!(forces[0], Vec2 { x: 0, y: 0 });
    assert_eq!(forces[1], Vec2 { x: 0, y: 0 });
}

#[test]
fn three_particles_sum_contributions() {
    // A middle particle pulled equally from both sides stays balanced.
    let mut m = CoeffMatrix::default();
    m.set(Category::Red, Category::Red, 1_000);
    let store = store_of(vec![
        particle_at(-20_000, 0, Category::Red),
        particle_at(0, 0, Category::Red),
        particle_at(20_000, 0, Category::Red),
    ]);
    let forces = compute_forces(&store, &m, 10_000);
    assert_eq!(forces[1], Vec2 { x: 0, y: 0 });
    // The outer particles feel the near neighbour (25) plus the far one
    // (10 / 40^2 = 0.00625, truncating per axis: a2 = 6, 6 * 40000 / 40000 = 6).
    assert_eq!(forces[0], Vec2 { x: 25 + 6, y: 0 });
    assert_eq!(forces[2], Vec2 { x: -(25 + 6), y: 0 });
}
