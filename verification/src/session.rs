//! The session controller.
//!
//! It owns the live configuration — per-category particle counts, the
//! base gravity scale, the two radii and the coefficient matrix — and the
//! particle store, and exposes the edit operations and the reset action.
//! Coefficient and scalar edits take effect on the next tick; count edits
//! are stored but take effect only at the next reset. A reset clears the
//! store, recomputes the active-category flags, takes the arena from the
//! viewport size of that moment, and spawns the configured number of
//! particles per category at uniform-random positions with zero velocity.

use crate::category::Category;
use crate::force::{compute_forces, force_bounded, net_force};
use crate::matrix::{clamp_coeff, CoeffMatrix};
use crate::particle::{
    count_cat, in_arena, lemma_count_cat_push, lemma_counts_partition, models_of, PModel,
    Particle, ParticleStore,
};
use crate::integrate::apply_forces;
use crate::units::{
    v2_add, v2_zero, Vec2, V2, COORD_LIMIT, COUNT_LIMIT, FORCE_LIMIT, GRAVITY_LIMIT,
    MAX_PARTICLES, RADIUS_MAX, RADIUS_MIN, SPAWN_MARGIN,
};
use rand::Rng;
use vstd::prelude::*;

verus! {

/// The live configuration. Counts take effect at the next reset; every
/// other field is read on every tick.
#[derive(Clone, Copy, PartialEq, Eq, Structural, Debug)]
pub struct SimConfig {
    pub red_count: usize,
    pub blue_count: usize,
    pub green_count: usize,
    pub yellow_count: usize,
    pub base_gravity: i64,
    pub shape_radius: i64,
    pub collision_radius: i64,
    pub matrix: CoeffMatrix,
}

impl SimConfig {
    /// The configured particle count of one category.
    pub open spec fn count_of(self, c: Category) -> int {
        match c {
            Category::Red => self.red_count as int,
            Category::Blue => self.blue_count as int,
            Category::Green => self.green_count as int,
            Category::Yellow => self.yellow_count as int,
        }
    }

    /// Every field lies within its editable range.
    pub open spec fn wf(self) -> bool {
        &&& self.red_count <= COUNT_LIMIT
        &&& self.blue_count <= COUNT_LIMIT
        &&& self.green_count <= COUNT_LIMIT
        &&& self.yellow_count <= COUNT_LIMIT
        &&& 0 <= self.base_gravity <= GRAVITY_LIMIT
        &&& RADIUS_MIN <= self.shape_radius <= RADIUS_MAX
        &&& RADIUS_MIN <= self.collision_radius <= RADIUS_MAX
        &&& self.matrix@.wf()
    }
}

impl Default for SimConfig {
    /// The starting configuration: 100 particles per category, base
    /// gravity 100.0, both radii 5.0, the default matrix.
    fn default() -> (r: SimConfig)
        ensures
            r.wf(),
            r.red_count == 100 && r.blue_count == 100 && r.green_count == 100
                && r.yellow_count == 100,
            r.base_gravity == GRAVITY_LIMIT,
            r.shape_radius == 5000 && r.collision_radius == 5000,
            forall|s: Category, t: Category|
                #[trigger] r.matrix@.coeff(s, t) == if s == t {
                    1000int
                } else {
                    -500int
                },
    {
        SimConfig {
            red_count: 100,
            blue_count: 100,
            green_count: 100,
            yellow_count: 100,
            base_gravity: GRAVITY_LIMIT,
            shape_radius: 5000,
            collision_radius: 5000,
            matrix: CoeffMatrix::default(),
        }
    }
}

/// A count as stored after an edit: clamped to the editable range.
pub open spec fn clamp_count(n: int) -> int {
    if n > COUNT_LIMIT {
        COUNT_LIMIT as int
    } else {
        n
    }
}

/// A base gravity scale as stored after an edit: clamped to its range.
pub open spec fn clamp_gravity(v: int) -> int {
    if v < 0 {
        0
    } else if v > GRAVITY_LIMIT {
        GRAVITY_LIMIT as int
    } else {
        v
    }
}

/// A radius as stored after an edit: clamped to its range.
pub open spec fn clamp_radius(v: int) -> int {
    if v < RADIUS_MIN {
        RADIUS_MIN as int
    } else if v > RADIUS_MAX {
        RADIUS_MAX as int
    } else {
        v
    }
}

/// A freshly spawned coordinate: uniform within the arena less the
/// spawn margin where that band is non-empty, at the arena's center
/// where the viewport is too small for it.
pub open spec fn spawn_ok(x: int, half: int) -> bool {
    if half > SPAWN_MARGIN {
        -half + SPAWN_MARGIN <= x < half - SPAWN_MARGIN
    } else {
        x == 0
    }
}

/// Both coordinates of a freshly spawned position are within the
/// margin band of their axis.
pub open spec fn spawned_pos(p: V2, half_width: int, half_height: int) -> bool {
    spawn_ok(p.x, half_width) && spawn_ok(p.y, half_height)
}

/// A velocity component small enough that one tick's force cannot
/// overflow it.
pub open spec fn vel_headroom(p: PModel) -> bool {
    &&& -(i64::MAX - FORCE_LIMIT) <= p.vel.x <= i64::MAX - FORCE_LIMIT
    &&& -(i64::MAX - FORCE_LIMIT) <= p.vel.y <= i64::MAX - FORCE_LIMIT
}

/// Relies on rand::Rng::gen_range, called on rand::thread_rng with the
/// half-open range `lo..hi` of i64: the sample lies in `[lo, hi)`. An
/// empty range would panic, so the range is required non-empty. Nothing
/// more is assumed: successive calls may return anything in the range.
#[verifier::external_body]
fn random_in_range(lo: i64, hi: i64) -> (r: i64)
    requires
        lo < hi,
    ensures
        lo <= r < hi,
{
    rand::thread_rng().gen_range(lo..hi)
}

/// A random spawn coordinate for an axis with the given half-extent.
fn spawn_coord(half: i64) -> (x: i64)
    requires
        0 <= half <= COORD_LIMIT,
    ensures
        spawn_ok(x as int, half as int),
{
    if half > SPAWN_MARGIN {
        random_in_range(-half + SPAWN_MARGIN, half - SPAWN_MARGIN)
    } else {
        0
    }
}

/// Appends `n` particles of category `c` at random spawn positions with
/// zero velocity. Existing entries are kept; every category count but
/// `c`'s is kept.
fn spawn_category(
    particles: &mut Vec<Particle>,
    c: Category,
    n: usize,
    half_width: i64,
    half_height: i64,
)
    requires
        0 <= half_width <= COORD_LIMIT,
        0 <= half_height <= COORD_LIMIT,
        old(particles)@.len() + n <= MAX_PARTICLES,
    ensures
        final(particles)@.len() == old(particles)@.len() + n,
        forall|k: int|
            0 <= k < old(particles)@.len() ==> #[trigger] final(particles)@[k] == old(
                particles,
            )@[k],
        forall|k: int|
            old(particles)@.len() <= k < final(particles)@.len() ==> {
                let p = (#[trigger] final(particles)@[k])@;
                p.category == c && p.vel == v2_zero() && spawned_pos(
                    p.pos,
                    half_width as int,
                    half_height as int,
                )
            },
        forall|c2: Category|
            #[trigger] count_cat(models_of(final(particles)@), c2) == count_cat(
                models_of(old(particles)@),
                c2,
            ) + if c2 == c {
                n as int
            } else {
                0int
            },
{
    let ghost base = particles@;
    let ghost base_models = models_of(particles@);
    let mut k: usize = 0;
    while k < n
        invariant
            k <= n,
            base.len() + n <= MAX_PARTICLES,
            0 <= half_width <= COORD_LIMIT,
            0 <= half_height <= COORD_LIMIT,
            particles@.len() == base.len() + k,
            base_models == models_of(base),
            forall|j: int| 0 <= j < base.len() ==> #[trigger] particles@[j] == base[j],
            forall|j: int|
                base.len() <= j < particles@.len() ==> {
                    let p = (#[trigger] particles@[j])@;
                    p.category == c && p.vel == v2_zero() && spawned_pos(
                        p.pos,
                        half_width as int,
                        half_height as int,
                    )
                },
            forall|c2: Category|
                #[trigger] count_cat(models_of(particles@), c2) == count_cat(base_models, c2) + if c2
                    == c {
                    k as int
                } else {
                    0int
                },
        decreases n - k,
    {
        let x = spawn_coord(half_width);
        let y = spawn_coord(half_height);
        let p = Particle { pos: Vec2 { x, y }, vel: Vec2 { x: 0, y: 0 }, category: c };
        let ghost pre = models_of(particles@);
        particles.push(p);
        proof {
            assert(models_of(particles@) =~= pre.push(p@));
            assert forall|c2: Category|
                #[trigger] count_cat(models_of(particles@), c2) == count_cat(base_models, c2) + if c2
                    == c {
                    k + 1int
                } else {
                    0int
                } by {
                lemma_count_cat_push(pre, p@, c2);
            }
        }
        k = k + 1;
    }
}

/// The session: the live configuration, the particle store and the four
/// active-category flags (recomputed at each reset, read by the
/// presentation layer to hide the controls of an empty category).
pub struct Session {
    pub config: SimConfig,
    pub store: ParticleStore,
    pub red_active: bool,
    pub blue_active: bool,
    pub green_active: bool,
    pub yellow_active: bool,
}

impl Session {
    /// The stored active flag of one category.
    pub open spec fn active_of(self, c: Category) -> bool {
        match c {
            Category::Red => self.red_active,
            Category::Blue => self.blue_active,
            Category::Green => self.green_active,
            Category::Yellow => self.yellow_active,
        }
    }

    /// Well-formed: the configuration and the store are.
    pub open spec fn wf(self) -> bool {
        self.config.wf() && self.store.wf()
    }

    /// A session around the given configuration, with an empty store:
    /// nothing is spawned before the first reset.
    pub fn new(config: SimConfig) -> (r: Session)
        requires
            config.wf(),
        ensures
            r.wf(),
            r.config == config,
            r.store.models().len() == 0,
            forall|c: Category| #[trigger] r.active_of(c) == (config.count_of(c) > 0),
    {
        Session {
            config,
            store: ParticleStore::new(),
            red_active: config.red_count > 0,
            blue_active: config.blue_count > 0,
            green_active: config.green_count > 0,
            yellow_active: config.yellow_count > 0,
        }
    }

    /// The stored active flag of one category.
    pub fn active(&self, c: Category) -> (r: bool)
        ensures
            r == self.active_of(c),
    {
        match c {
            Category::Red => self.red_active,
            Category::Blue => self.blue_active,
            Category::Green => self.green_active,
            Category::Yellow => self.yellow_active,
        }
    }

    /// Stores `value`, clamped to the editable range, as the coefficient
    /// for (source, target): immediate effect on the next tick. Nothing
    /// else changes.
    pub fn update_coefficient(&mut self, source: Category, target: Category, value: i64)
        requires
            old(self).wf(),
        ensures
            final(self).wf(),
            final(self).config.matrix@.coeff(source, target) == clamp_coeff(value as int),
            forall|s: Category, t: Category|
                !(s == source && t == target) ==> #[trigger] final(self).config.matrix@.coeff(s, t)
                    == old(self).config.matrix@.coeff(s, t),
            final(self).config.red_count == old(self).config.red_count,
            final(self).config.blue_count == old(self).config.blue_count,
            final(self).config.green_count == old(self).config.green_count,
            final(self).config.yellow_count == old(self).config.yellow_count,
            final(self).config.base_gravity == old(self).config.base_gravity,
            final(self).config.shape_radius == old(self).config.shape_radius,
            final(self).config.collision_radius == old(self).config.collision_radius,
            final(self).store == old(self).store,
            forall|c: Category| #[trigger] final(self).active_of(c) == old(self).active_of(c),
    {
        self.config.matrix.set(source, target, value);
    }

    /// Stores `n`, clamped to the editable range, as the count of
    /// category `c`. The live particle set is untouched: the new count
    /// takes effect only at the next reset.
    pub fn update_count(&mut self, c: Category, n: usize)
        requires
            old(self).wf(),
        ensures
            final(self).wf(),
            final(self).config.count_of(c) == clamp_count(n as int),
            forall|c2: Category|
                c2 != c ==> #[trigger] final(self).config.count_of(c2) == old(
                    self,
                ).config.count_of(c2),
            final(self).config.base_gravity == old(self).config.base_gravity,
            final(self).config.shape_radius == old(self).config.shape_radius,
            final(self).config.collision_radius == old(self).config.collision_radius,
            final(self).config.matrix == old(self).config.matrix,
            final(self).store == old(self).store,
            forall|c2: Category| #[trigger] final(self).active_of(c2) == old(self).active_of(c2),
    {
        let v: usize = if n > COUNT_LIMIT {
            COUNT_LIMIT
        } else {
            n
        };
        match c {
            Category::Red => self.config.red_count = v,
            Category::Blue => self.config.blue_count = v,
            Category::Green => self.config.green_count = v,
            Category::Yellow => self.config.yellow_count = v,
        }
    }

    /// Stores the base gravity scale, clamped to its range.
    pub fn set_base_gravity(&mut self, v: i64)
        requires
            old(self).wf(),
        ensures
            final(self).wf(),
            final(self).config.base_gravity == clamp_gravity(v as int),
            *final(self) == (Session {
                config: SimConfig {
                    base_gravity: final(self).config.base_gravity,
                    ..old(self).config
                },
                ..*old(self)
            }),
    {
        self.config.base_gravity = if v < 0 {
            0
        } else if v > GRAVITY_LIMIT {
            GRAVITY_LIMIT
        } else {
            v
        };
    }

    /// Stores the drawn shape radius, clamped to its range.
    pub fn set_shape_radius(&mut self, v: i64)
        requires
            old(self).wf(),
        ensures
            final(self).wf(),
            final(self).config.shape_radius == clamp_radius(v as int),
            *final(self) == (Session {
                config: SimConfig {
                    shape_radius: final(self).config.shape_radius,
                    ..old(self).config
                },
                ..*old(self)
            }),
    {
        self.config.shape_radius = if v < RADIUS_MIN {
            RADIUS_MIN
        } else if v > RADIUS_MAX {
            RADIUS_MAX
        } else {
            v
        };
    }

    /// Stores the collision radius, clamped to its range.
    pub fn set_collision_radius(&mut self, v: i64)
        requires
            old(self).wf(),
        ensures
            final(self).wf(),
            final(self).config.collision_radius == clamp_radius(v as int),
            *final(self) == (Session {
                config: SimConfig {
                    collision_radius: final(self).config.collision_radius,
                    ..old(self).config
                },
                ..*old(self)
            }),
    {
        self.config.collision_radius = if v < RADIUS_MIN {
            RADIUS_MIN
        } else if v > RADIUS_MAX {
            RADIUS_MAX
        } else {
            v
        };
    }

    /// The restart action: despawns every particle, recomputes the
    /// active flags from the stored counts, takes the arena from the
    /// viewport of this moment, and spawns the configured number of
    /// particles per category at random positions with zero velocity.
    /// Never fails, whatever the current store holds — repeating it with
    /// an unchanged configuration always yields the configured counts
    /// again. A zero-area viewport degenerates to spawning at the
    /// center, not to an error.
    pub fn reset(&mut self, view_width: i64, view_height: i64)
        requires
            old(self).wf(),
            0 <= view_width <= 2 * COORD_LIMIT,
            0 <= view_height <= 2 * COORD_LIMIT,
        ensures
            final(self).wf(),
            final(self).config == old(self).config,
            final(self).store.half_width as int == view_width as int / 2,
            final(self).store.half_height as int == view_height as int / 2,
            forall|c: Category|
                #[trigger] count_cat(final(self).store.models(), c) == old(self).config.count_of(
                    c,
                ),
            final(self).store.models().len() == old(self).config.red_count + old(
                self,
            ).config.blue_count + old(self).config.green_count + old(self).config.yellow_count,
            forall|i: int|
                0 <= i < final(self).store.models().len() ==> {
                    let p = #[trigger] final(self).store.models()[i];
                    p.vel == v2_zero() && spawned_pos(
                        p.pos,
                        final(self).store.half_width as int,
                        final(self).store.half_height as int,
                    )
                },
            forall|c: Category|
                #[trigger] final(self).active_of(c) == (old(self).config.count_of(c) > 0),
    {
        let half_width = ((view_width as u64) / 2) as i64;
        let half_height = ((view_height as u64) / 2) as i64;
        self.red_active = self.config.red_count > 0;
        self.blue_active = self.config.blue_count > 0;
        self.green_active = self.config.green_count > 0;
        self.yellow_active = self.config.yellow_count > 0;
        let mut particles: Vec<Particle> = Vec::new();
        proof {
            assert(models_of(particles@) =~= Seq::<PModel>::empty());
        }
        spawn_category(&mut particles, Category::Red, self.config.red_count, half_width,
            half_height);
        spawn_category(&mut particles, Category::Blue, self.config.blue_count, half_width,
            half_height);
        spawn_category(&mut particles, Category::Green, self.config.green_count, half_width,
            half_height);
        spawn_category(&mut particles, Category::Yellow, self.config.yellow_count, half_width,
            half_height);
        let store = ParticleStore { particles, half_width, half_height };
        proof {
            assert forall|i: int|
                0 <= i < store.models().len() implies in_arena(
                #[trigger] store.models()[i].pos,
                half_width as int,
                half_height as int,
            ) by {
                assert(spawned_pos(store.models()[i].pos, half_width as int, half_height as int));
            }
        }
        self.store = store;
    }

    /// One simulation tick: the force engine computes every net force
    /// from a snapshot of the store, then the integrator adds each
    /// force to its particle's velocity. Positions and categories are
    /// untouched; position advancement belongs to the host's motion
    /// collaborator.
    pub fn tick(&mut self)
        requires
            old(self).wf(),
            forall|i: int|
                0 <= i < old(self).store.models().len() ==> vel_headroom(
                    #[trigger] old(self).store.models()[i],
                ),
        ensures
            final(self).wf(),
            final(self).config == old(self).config,
            forall|c: Category| #[trigger] final(self).active_of(c) == old(self).active_of(c),
            final(self).store.half_width == old(self).store.half_width,
            final(self).store.half_height == old(self).store.half_height,
            final(self).store.models().len() == old(self).store.models().len(),
            forall|i: int|
                0 <= i < final(self).store.models().len() ==> {
                    let np = #[trigger] final(self).store.models()[i];
                    let op = old(self).store.models()[i];
                    np.pos == op.pos && np.category == op.category && np.vel == v2_add(
                        op.vel,
                        net_force(
                            old(self).store.models(),
                            i,
                            old(self).config.matrix@,
                            old(self).config.base_gravity as int,
                        ),
                    )
                },
    {
        let forces = compute_forces(&self.store, &self.config.matrix, self.config.base_gravity);
        proof {
            assert forall|i: int|
                0 <= i < forces@.len() implies i64::MIN <= self.store.models()[i].vel.x + (
            #[trigger] forces@[i])@.x <= i64::MAX && i64::MIN <= self.store.models()[i].vel.y
                + forces@[i]@.y <= i64::MAX by {
                assert(force_bounded(forces@[i]));
                assert(vel_headroom(self.store.models()[i]));
            }
        }
        apply_forces(&mut self.store, &forces);
    }
}

/// Two stores that both came out of a reset under one configuration
/// hold the same number of particles of every category, and the same
/// total, whatever positions the randomness chose: resetting again with
/// an unchanged configuration repeats the counts.
pub proof fn lemma_reset_counts_deterministic(
    config: SimConfig,
    s1: Seq<PModel>,
    s2: Seq<PModel>,
)
    requires
        forall|c: Category| #[trigger] count_cat(s1, c) == config.count_of(c),
        forall|c: Category| #[trigger] count_cat(s2, c) == config.count_of(c),
    ensures
        forall|c: Category| #[trigger] count_cat(s1, c) == count_cat(s2, c),
        s1.len() == s2.len(),
{
    lemma_counts_partition(s1);
    lemma_counts_partition(s2);
}

} // verus!
