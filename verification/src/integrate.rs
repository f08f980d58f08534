//! The integrator.
//!
//! Once per tick, after the force engine has produced one net force per
//! particle, every particle's velocity is advanced by its force: explicit
//! Euler with a unit timestep, one tick being one unit of integration
//! time, with no drag or damping term. Positions are advanced by the
//! host's motion collaborator, not here.

use crate::particle::{in_arena, Particle, ParticleStore};
use crate::units::{v2_add, Vec2, V2};
use vstd::prelude::*;

verus! {

/// The velocity after `k` ticks of explicit Euler integration under the
/// constant force `f`, starting from `v`.
pub open spec fn vel_after_ticks(v: V2, f: V2, k: nat) -> V2
    decreases k,
{
    if k == 0 {
        v
    } else {
        v2_add(vel_after_ticks(v, f, (k - 1) as nat), f)
    }
}

/// Explicit Euler accumulates linearly: under a constant force `f` and
/// no interference with the velocity from elsewhere, the velocity after
/// `k` ticks is the initial velocity plus `k` times `f`, per component.
pub proof fn lemma_constant_force_velocity(v: V2, f: V2, k: nat)
    ensures
        vel_after_ticks(v, f, k).x == v.x + k * f.x,
        vel_after_ticks(v, f, k).y == v.y + k * f.y,
    decreases k,
{
    if k == 0 {
        assert(k * f.x == 0 && k * f.y == 0) by (nonlinear_arith)
            requires
                k == 0,
        ;
    } else {
        lemma_constant_force_velocity(v, f, (k - 1) as nat);
        assert(k * f.x == (k - 1) * f.x + f.x && k * f.y == (k - 1) * f.y + f.y)
            by (nonlinear_arith)
        ;
    }
}

/// Adds force `i` to the velocity of particle `i`, for every particle:
/// one explicit Euler step. Positions, categories, the arena and the
/// number of particles are untouched.
pub fn apply_forces(store: &mut ParticleStore, forces: &Vec<Vec2>)
    requires
        old(store).wf(),
        forces@.len() == old(store).models().len(),
        forall|i: int|
            0 <= i < forces@.len() ==> i64::MIN <= old(store).models()[i].vel.x + (
            #[trigger] forces@[i])@.x <= i64::MAX && i64::MIN <= old(store).models()[i].vel.y
                + forces@[i]@.y <= i64::MAX,
    ensures
        final(store).wf(),
        final(store).half_width == old(store).half_width,
        final(store).half_height == old(store).half_height,
        final(store).models().len() == old(store).models().len(),
        forall|i: int|
            0 <= i < forces@.len() ==> {
                let np = #[trigger] final(store).models()[i];
                let op = old(store).models()[i];
                np.pos == op.pos && np.category == op.category && np.vel == v2_add(
                    op.vel,
                    forces@[i]@,
                )
            },
{
    let ghost s0 = old(store).models();
    let n = store.particles.len();
    let mut i: usize = 0;
    while i < n
        invariant
            i <= n,
            n == store.particles@.len(),
            n == s0.len(),
            n == forces@.len(),
            store.half_width == old(store).half_width,
            store.half_height == old(store).half_height,
            old(store).wf(),
            forall|k: int|
                0 <= k < n ==> i64::MIN <= s0[k].vel.x + (#[trigger] forces@[k])@.x <= i64::MAX
                    && i64::MIN <= s0[k].vel.y + forces@[k]@.y <= i64::MAX,
            forall|k: int| i <= k < n ==> #[trigger] store.models()[k] == s0[k],
            forall|k: int|
                0 <= k < i ==> {
                    let np = #[trigger] store.models()[k];
                    np.pos == s0[k].pos && np.category == s0[k].category && np.vel == v2_add(
                        s0[k].vel,
                        forces@[k]@,
                    )
                },
        decreases n - i,
    {
        let p = store.particles[i];
        let f = forces[i];
        assert(p@ == store.models()[i as int] && store.models()[i as int] == s0[i as int]);
        let np = Particle {
            pos: p.pos,
            vel: Vec2 { x: p.vel.x + f.x, y: p.vel.y + f.y },
            category: p.category,
        };
        let ghost pre = store.models();
        store.particles[i] = np;
        proof {
            assert(store.models() =~= pre.update(i as int, np@));
        }
        i = i + 1;
    }
    proof {
        assert forall|k: int|
            0 <= k < store.models().len() implies in_arena(
            #[trigger] store.models()[k].pos,
            store.half_width as int,
            store.half_height as int,
        ) by {
            assert(store.models()[k].pos == s0[k].pos);
            assert(in_arena(s0[k].pos, old(store).half_width as int, old(store).half_height as int));
        }
    }
}

} // verus!
