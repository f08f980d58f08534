//! Particles and the particle store.

use crate::category::Category;
use crate::units::{Vec2, V2, COORD_LIMIT, MAX_PARTICLES};
use vstd::prelude::*;

verus! {

/// A particle: position, velocity and category. Positions and
/// velocities are fixed-point vectors; the category never changes.
#[derive(Clone, Copy, PartialEq, Eq, Structural, Debug)]
pub struct Particle {
    pub pos: Vec2,
    pub vel: Vec2,
    pub category: Category,
}

/// The mathematical value of a [`Particle`].
pub ghost struct PModel {
    pub pos: V2,
    pub vel: V2,
    pub category: Category,
}

impl View for Particle {
    type V = PModel;

    open spec fn view(&self) -> PModel {
        PModel { pos: self.pos@, vel: self.vel@, category: self.category }
    }
}

/// The mathematical values of a list of particles.
pub open spec fn models_of(s: Seq<Particle>) -> Seq<PModel> {
    s.map_values(|p: Particle| p@)
}

/// A position lies inside the axis-aligned arena rectangle with the
/// given half-extents.
pub open spec fn in_arena(pos: V2, half_width: int, half_height: int) -> bool {
    &&& -half_width <= pos.x <= half_width
    &&& -half_height <= pos.y <= half_height
}

/// How many particles of `s` have category `c`.
pub open spec fn count_cat(s: Seq<PModel>, c: Category) -> int
    decreases s.len(),
{
    if s.len() == 0 {
        0
    } else {
        count_cat(s.drop_last(), c) + if s.last().category == c {
            1int
        } else {
            0int
        }
    }
}

/// Appending a particle raises its own category's count by one and no
/// other.
pub proof fn lemma_count_cat_push(s: Seq<PModel>, p: PModel, c: Category)
    ensures
        count_cat(s.push(p), c) == count_cat(s, c) + if p.category == c {
            1int
        } else {
            0int
        },
{
    assert(s.push(p).drop_last() =~= s);
    assert(s.push(p).last() == p);
}

/// The four category counts partition the store: they sum to its size.
pub proof fn lemma_counts_partition(s: Seq<PModel>)
    ensures
        count_cat(s, Category::Red) + count_cat(s, Category::Blue) + count_cat(
            s,
            Category::Green,
        ) + count_cat(s, Category::Yellow) == s.len(),
    decreases s.len(),
{
    if s.len() > 0 {
        lemma_counts_partition(s.drop_last());
    }
}

/// The live set of particles together with the arena half-extents.
pub struct ParticleStore {
    pub particles: Vec<Particle>,
    pub half_width: i64,
    pub half_height: i64,
}

impl ParticleStore {
    /// The mathematical value of the particle list.
    pub open spec fn models(&self) -> Seq<PModel> {
        models_of(self.particles@)
    }

    /// Well-formed: the arena half-extents are bounded, the store holds
    /// at most [`MAX_PARTICLES`] particles, and every particle lies
    /// inside the arena.
    pub open spec fn wf(&self) -> bool {
        &&& 0 <= self.half_width <= COORD_LIMIT
        &&& 0 <= self.half_height <= COORD_LIMIT
        &&& self.particles@.len() <= MAX_PARTICLES
        &&& forall|i: int|
            0 <= i < self.models().len() ==> in_arena(
                #[trigger] self.models()[i].pos,
                self.half_width as int,
                self.half_height as int,
            )
    }

    /// An empty store with zero-size arena.
    pub fn new() -> (r: ParticleStore)
        ensures
            r.wf(),
            r.models().len() == 0,
            r.half_width == 0,
            r.half_height == 0,
    {
        ParticleStore { particles: Vec::new(), half_width: 0, half_height: 0 }
    }

    /// How many particles the store holds.
    pub fn len(&self) -> (r: usize)
        ensures
            r == self.models().len(),
    {
        self.particles.len()
    }

    /// The particle at index `i`.
    pub fn particle(&self, i: usize) -> (r: Particle)
        requires
            i < self.models().len(),
        ensures
            r@ == self.models()[i as int],
    {
        self.particles[i]
    }

    /// How many particles of the store have category `c`.
    pub fn category_count(&self, c: Category) -> (r: usize)
        ensures
            r == count_cat(self.models(), c),
    {
        let n = self.particles.len();
        let mut count: usize = 0;
        let mut i: usize = 0;
        proof {
            assert(self.models().take(0) =~= Seq::<PModel>::empty());
        }
        while i < n
            invariant
                i <= n,
                n == self.models().len(),
                count <= i,
                count == count_cat(self.models().take(i as int), c),
            decreases n - i,
        {
            proof {
                assert(self.models().take(i + 1).drop_last() =~= self.models().take(i as int));
                assert(self.models().take(i + 1).last() == self.models()[i as int]);
            }
            if self.particles[i].category == c {
                count = count + 1;
            }
            i = i + 1;
        }
        proof {
            assert(self.models().take(n as int) =~= self.models());
        }
        count
    }
}

} // verus!
