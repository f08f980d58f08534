use particle_party::category::Category;
use particle_party::session::{Session, SimConfig};
use particle_party::units::Vec2;

fn counted_config(red: usize, blue: usize, green: usize, yellow: usize) -> SimConfig {
    let mut config = SimConfig::default();
    config.red_count = red;
    config.blue_count = blue;
    config.green_count = green;
    config.yellow_count = yellow;
    config
}

#[test]
fn default_config_matches_startup() {
    let config = SimConfig::default();
    assert_eq!(config.red_count, 100);
    assert_eq!(config.blue_count, 100);
    assert_eq!(config.green_count, 100);
    assert_eq!(config.yellow_count, 100);
    assert_eq!(config.base_gravity, 100_000);
    assert_eq!(config.shape_radius, 5_000);
    assert_eq!(config.collision_radius, 5_000);
    assert_eq!(config.matrix.get(Category::Red, Category::Red), 1_000);
    assert_eq!(config.matrix.get(Category::Red, Category::Blue), -500);
    assert_eq!(config.matrix.get(Category::Yellow, Category::Yellow), 1_000);
}

#[test]
fn reset_spawns_configured_counts_within_margin() {
    let mut session = Session::new(counted_config(10, 0, 5, 0));
    session.reset(800_000, 600_000);
    assert_eq!(session.store.len(), 15);
    assert_eq!(session.store.category_count(Category::Red), 10);
    assert_eq!(session.store.category_count(Category::Blue), 0);
    assert_eq!(session.store.category_count(Category::Green), 5);
    assert_eq!(session.store.category_count(Category::Yellow), 0);
    assert!(session.active(Category::Red));
    assert!(!session.active(Category::Blue));
    assert!(session.active(Category::Green));
    assert!(!session.active(Category::Yellow));
    assert_eq!(session.store.half_width, 400_000);
    assert_eq!(session.store.half_height, 300_000);
    for i in 0..session.store.len() {
        let p = session.store.particle(i);
        assert!(-395_000 <= p.pos.x && p.pos.x < 395_000);
        assert!(-295_000 <= p.pos.y && p.pos.y < 295_000);
        assert_eq!(p.vel, Vec2 { x: 0, y: 0 });
    }
}

#[test]
fn reset_twice_repeats_counts() {
    let mut session = Session::new(counted_config(7, 3, 0, 2));
    session.reset(400_000, 400_000);
    let first = (
        session.store.category_count(Category::Red),
        session.store.category_count(Category::Blue),
        session.store.category_count(Category::Green),
        session.store.category_count(Category::Yellow),
    );
    session.reset(400_000, 400_000);
    let second = (
        session.store.category_count(Category::Red),
        session.store.category_count(Category::Blue),
        session.store.category_count(Category::Green),
        session.store.category_count(Category::Yellow),
    );
    assert_eq!(first, (7, 3, 0, 2));
    assert_eq!(second, first);
    assert_eq!(session.store.len(), 12);
}

#[test]
fn reset_with_degenerate_viewport_spawns_at_center() {
    let mut session = Session::new(counted_config(4, 0, 0, 0));
    session.reset(0, 0);
    assert_eq!(session.store.len(), 4);
    for i in 0..session.store.len() {
        let p = session.store.particle(i);
        assert_eq!(p.pos, Vec2 { x: 0, y: 0 });
    }
}

#[test]
fn count_edits_take_effect_only_at_reset() {
    let mut session = Session::new(counted_config(3, 0, 0, 0));
    session.reset(200_000, 200_000);
    assert_eq!(session.store.len(), 3);
    session.update_count(Category::Blue, 5);
    // The live particle set is untouched by the edit...
    assert_eq!(session.store.len(), 3);
    assert_eq!(session.store.category_count(Category::Blue), 0);
    // ...and the stale active flag stays until the next reset.
    assert!(!session.active(Category::Blue));
    session.reset(200_000, 200_000);
    assert_eq!(session.store.len(), 8);
    assert_eq!(session.store.category_count(Category::Blue), 5);
    assert!(session.active(Category::Blue));
}

#[test]
fn count_edit_clamps_to_limit() {
    let mut session = Session::new(SimConfig::default());
    session.update_count(Category::Green, 5_000);
    assert_eq!(session.config.green_count, 1_000);
}

#[test]
fn coefficient_edit_clamps_and_keeps_others() {
    let mut session = Session::new(SimConfig::default());
    session.update_coefficient(Category::Red, Category::Blue, 7_000);
    assert_eq!(session.config.matrix.get(Category::Red, Category::Blue), 5_000);
    session.update_coefficient(Category::Blue, Category::Red, -9_999);
    assert_eq!(session.config.matrix.get(Category::Blue, Category::Red), -5_000);
    session.update_coefficient(Category::Green, Category::Yellow, 250);
    assert_eq!(session.config.matrix.get(Category::Green, Category::Yellow), 250);
    // The symmetric entry is untouched: the matrix is ordered pairs.
    assert_eq!(session.config.matrix.get(Category::Yellow, Category::Green), -500);
}

#[test]
fn scalar_setters_clamp_to_ranges() {
    let mut session = Session::new(SimConfig::default());
    session.set_base_gravity(-5);
    assert_eq!(session.config.base_gravity, 0);
    session.set_base_gravity(250_000);
    assert_eq!(session.config.base_gravity, 100_000);
    session.set_base_gravity(42_000);
    assert_eq!(session.config.base_gravity, 42_000);
    session.set_shape_radius(0);
    assert_eq!(session.config.shape_radius, 1_000);
    session.set_shape_radius(99_000);
    assert_eq!(session.config.shape_radius, 10_000);
    session.set_collision_radius(2_500);
    assert_eq!(session.config.collision_radius, 2_500);
}

#[test]
fn new_session_has_empty_store_and_flags_from_counts() {
    let session = Session::new(counted_config(0, 1, 0, 9));
    assert_eq!(session.store.len(), 0);
    assert!(!session.active(Category::Red));
    assert!(session.active(Category::Blue));
    assert!(!session.active(Category::Green));
    assert!(session.active(Category::Yellow));
}
