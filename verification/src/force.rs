//! The force engine.
//!
//! Once per tick, every particle receives a net force: the sum over all
//! other particles of an inverse-square contribution weighted by the
//! coefficient for the ordered (source, target) category pair. Pairs at
//! distance `MIN_DISTANCE` or closer contribute nothing, a deliberate
//! short-range cutoff; self-pairs are always skipped.
//!
//! A positive coefficient attracts: the raw `P - Q` direction points away
//! from `Q`, and the formula's leading minus sign flips it toward `Q`.
//!
//! All arithmetic is fixed-point: products are exact, quotients round
//! toward zero. The contribution along one axis is
//! `((|c| * g * SCALE) / r2) * |d| / r` with the sign of `-c * d`, where
//! `c` is the coefficient, `g` the base gravity scale, `d` the coordinate
//! difference, `r2` its squared distance and `r = sqrt_floor(r2)`.

use crate::category::Category;
use crate::matrix::{CoeffMatrix, MatrixView};
use crate::particle::{Particle, PModel, ParticleStore};
use crate::sqrt::{is_sqrt_floor, isqrt, lemma_sqrt_floor_bounds, sqrt_floor};
use crate::units::{
    abs_val, v2_add, v2_zero, Vec2, V2, CONTRIB_LIMIT, COEFF_LIMIT, COORD_LIMIT, FORCE_LIMIT,
    GRAVITY_LIMIT, MAX_PARTICLES, MIN_DISTANCE, SCALE,
};
use vstd::arithmetic::div_mod::{
    lemma_div_is_ordered, lemma_div_is_ordered_by_denominator, lemma_div_multiples_vanish,
    lemma_div_of0, lemma_div_pos_is_pos,
};
use vstd::arithmetic::mul::lemma_mul_inequality;
use vstd::prelude::*;

verus! {

/// Both coordinates are bounded by [`COORD_LIMIT`].
pub open spec fn pos_bounded(p: V2) -> bool {
    &&& -COORD_LIMIT <= p.x <= COORD_LIMIT
    &&& -COORD_LIMIT <= p.y <= COORD_LIMIT
}

/// Both components of a net force are bounded by [`FORCE_LIMIT`].
pub open spec fn force_bounded(f: Vec2) -> bool {
    &&& -FORCE_LIMIT <= f.x <= FORCE_LIMIT
    &&& -FORCE_LIMIT <= f.y <= FORCE_LIMIT
}

/// The squared distance between two positions.
pub open spec fn dist2(p: V2, q: V2) -> int {
    (p.x - q.x) * (p.x - q.x) + (p.y - q.y) * (p.y - q.y)
}

/// Magnitude of one axis of a pairwise contribution, rounded toward
/// zero at each of the two divisions: `cabs` is the coefficient's
/// magnitude, `g` the base gravity scale, `dabs` the coordinate
/// difference's magnitude, `r2` the squared distance and `r` the
/// distance.
pub open spec fn contrib_axis_mag(cabs: int, g: int, dabs: int, r2: int, r: int) -> int {
    ((cabs * g * SCALE) / r2) * dabs / r
}

/// Attaches to `mag` the sign of `-c * d`: a positive coefficient pulls
/// the source back along the `P - Q` axis, toward the target.
pub open spec fn signed_toward(c: int, d: int, mag: int) -> int {
    if (c >= 0) == (d >= 0) {
        -mag
    } else {
        mag
    }
}

/// The force that target particle `q` contributes to source particle
/// `p`: zero at distance `MIN_DISTANCE` or closer, otherwise the
/// inverse-square formula weighted by the matrix entry for
/// (source category, target category) — in that order.
pub open spec fn pair_contrib(p: PModel, q: PModel, m: MatrixView, g: int) -> V2 {
    let c = m.coeff(p.category, q.category);
    let dx = p.pos.x - q.pos.x;
    let dy = p.pos.y - q.pos.y;
    let r2 = dist2(p.pos, q.pos);
    let r = sqrt_floor(r2);
    if r > MIN_DISTANCE {
        V2 {
            x: signed_toward(c, dx, contrib_axis_mag(abs_val(c), g, abs_val(dx), r2, r)),
            y: signed_toward(c, dy, contrib_axis_mag(abs_val(c), g, abs_val(dy), r2, r)),
        }
    } else {
        v2_zero()
    }
}

/// The sum of the contributions of the first `n` particles (skipping
/// particle `i` itself) to particle `i`.
pub open spec fn net_force_prefix(s: Seq<PModel>, i: int, n: int, m: MatrixView, g: int) -> V2
    decreases n,
{
    if n <= 0 {
        v2_zero()
    } else if n - 1 == i {
        net_force_prefix(s, i, n - 1, m, g)
    } else {
        v2_add(net_force_prefix(s, i, n - 1, m, g), pair_contrib(s[i], s[n - 1], m, g))
    }
}

/// The net force on particle `i`: the sum of the contributions of every
/// other particle in the store.
pub open spec fn net_force(s: Seq<PModel>, i: int, m: MatrixView, g: int) -> V2 {
    net_force_prefix(s, i, s.len() as int, m, g)
}

/// The magnitude of a coordinate difference never exceeds the
/// rounded-down distance.
proof fn lemma_abs_le_dist(d: int, o: int, r: int)
    requires
        is_sqrt_floor(d * d + o * o, r),
    ensures
        abs_val(d) <= r,
{
    assert(abs_val(d) <= r) by (nonlinear_arith)
        requires
            0 <= r,
            d * d + o * o < (r + 1) * (r + 1),
    ;
}

/// One axis of a contribution is bounded by [`CONTRIB_LIMIT`] whenever
/// the inputs respect the configured ranges and the cutoff passed.
proof fn lemma_contrib_mag_bound(cabs: int, g: int, dabs: int, r2: int, r: int)
    requires
        0 <= cabs <= COEFF_LIMIT,
        0 <= g <= GRAVITY_LIMIT,
        is_sqrt_floor(r2, r),
        r > MIN_DISTANCE,
        0 <= dabs <= r,
    ensures
        0 <= contrib_axis_mag(cabs, g, dabs, r2, r) <= CONTRIB_LIMIT,
{
    let num = cabs * g * SCALE;
    assert(0 <= num <= 500000000000int) by (nonlinear_arith)
        requires
            0 <= cabs <= 5000,
            0 <= g <= 100000,
            num == cabs * g * 1000,
    ;
    assert(r2 >= 100020001) by (nonlinear_arith)
        requires
            r >= 10001,
            r * r <= r2,
    ;
    let a2 = num / r2;
    lemma_div_pos_is_pos(num, r2);
    lemma_div_is_ordered_by_denominator(num, 100020001, r2);
    lemma_div_is_ordered(num, 500000000000int, 100020001);
    assert(500000000000int / 100020001 == 4999);
    assert(a2 <= 4999);
    assert(0 <= a2 * dabs) by (nonlinear_arith)
        requires
            0 <= a2,
            0 <= dabs,
    ;
    lemma_div_pos_is_pos(a2 * dabs, r);
    lemma_mul_inequality(dabs, r, a2);
    lemma_div_is_ordered(dabs * a2, r * a2, r);
    lemma_div_multiples_vanish(a2, r);
    assert(dabs * a2 == a2 * dabs);
    assert(a2 * dabs / r <= a2);
}

/// The force that `q` contributes to `p`, computed exactly as
/// [`pair_contrib`] states it.
pub fn pair_force(p: &Particle, q: &Particle, m: &CoeffMatrix, g: i64) -> (f: Vec2)
    requires
        pos_bounded(p@.pos),
        pos_bounded(q@.pos),
        m@.wf(),
        0 <= g <= GRAVITY_LIMIT,
    ensures
        f@ == pair_contrib(p@, q@, m@, g as int),
        -CONTRIB_LIMIT <= f.x <= CONTRIB_LIMIT,
        -CONTRIB_LIMIT <= f.y <= CONTRIB_LIMIT,
{
    let c = m.get(p.category, q.category);
    assert(-COEFF_LIMIT <= c <= COEFF_LIMIT);
    let dx = p.pos.x - q.pos.x;
    let dy = p.pos.y - q.pos.y;
    let adx: i64 = if dx < 0 {
        -dx
    } else {
        dx
    };
    let ady: i64 = if dy < 0 {
        -dy
    } else {
        dy
    };
    assert(adx * adx == dx * dx && ady * ady == dy * dy) by (nonlinear_arith)
        requires
            adx == abs_val(dx as int),
            ady == abs_val(dy as int),
    ;
    assert(adx * adx + ady * ady <= 8000000000000000000int) by (nonlinear_arith)
        requires
            0 <= adx <= 2000000000int,
            0 <= ady <= 2000000000int,
    ;
    let adxu = adx as u64;
    let adyu = ady as u64;
    let r2: u64 = adxu * adxu + adyu * adyu;
    assert(r2 as int == dist2(p@.pos, q@.pos));
    let r = isqrt(r2);
    if r > MIN_DISTANCE as u64 {
        proof {
            lemma_abs_le_dist(dx as int, dy as int, r as int);
            lemma_abs_le_dist(dy as int, dx as int, r as int);
        }
        let cabs: i64 = if c < 0 {
            -c
        } else {
            c
        };
        proof {
            assert(0 <= (cabs as int) * (g as int) <= 500000000int) by (nonlinear_arith)
                requires
                    0 <= cabs <= 5000,
                    0 <= g <= 100000,
            ;
        }
        let cg: u64 = (cabs as u64) * (g as u64);
        let num: u64 = cg * 1000;
        assert(num == abs_val(c as int) * (g as int) * SCALE);
        proof {
            assert(r2 >= 100020001) by (nonlinear_arith)
                requires
                    r >= 10001,
                    (r as int) * (r as int) <= r2 as int,
            ;
        }
        let a2: u64 = num / r2;
        proof {
            lemma_div_pos_is_pos(num as int, r2 as int);
            lemma_div_is_ordered_by_denominator(num as int, 100020001, r2 as int);
            lemma_div_is_ordered(num as int, 500000000000int, 100020001);
            assert(500000000000int / 100020001 == 4999);
            assert(a2 <= 4999);
            assert(a2 * adxu <= 4999 * 2000000000int && a2 * adyu <= 4999 * 2000000000int)
                by (nonlinear_arith)
                requires
                    0 <= a2 <= 4999,
                    0 <= adxu <= 2000000000int,
                    0 <= adyu <= 2000000000int,
            ;
        }
        let magx: u64 = a2 * adxu / r;
        let magy: u64 = a2 * adyu / r;
        proof {
            lemma_contrib_mag_bound(
                abs_val(c as int),
                g as int,
                adxu as int,
                r2 as int,
                r as int,
            );
            lemma_contrib_mag_bound(
                abs_val(c as int),
                g as int,
                adyu as int,
                r2 as int,
                r as int,
            );
        }
        let fx: i64 = if (c >= 0) == (dx >= 0) {
            -(magx as i64)
        } else {
            magx as i64
        };
        let fy: i64 = if (c >= 0) == (dy >= 0) {
            -(magy as i64)
        } else {
            magy as i64
        };
        Vec2 { x: fx, y: fy }
    } else {
        Vec2 { x: 0, y: 0 }
    }
}

/// One net force per particle, row for row: entry `i` is exactly
/// [`net_force`] for particle `i` over the whole store, and each
/// component is bounded by [`FORCE_LIMIT`]. The store is only read; the
/// caller applies the output (a separate buffer parallel to the particle
/// list) afterwards, so every force of one tick is computed from one
/// consistent snapshot.
pub fn compute_forces(store: &ParticleStore, m: &CoeffMatrix, g: i64) -> (forces: Vec<Vec2>)
    requires
        store.wf(),
        m@.wf(),
        0 <= g <= GRAVITY_LIMIT,
    ensures
        forces@.len() == store.models().len(),
        forall|i: int|
            0 <= i < forces@.len() ==> #[trigger] forces@[i]@ == net_force(
                store.models(),
                i,
                m@,
                g as int,
            ),
        forall|i: int| 0 <= i < forces@.len() ==> force_bounded(#[trigger] forces@[i]),
{
    let ghost s = store.models();
    let n = store.particles.len();
    assert(n == s.len());
    let mut forces: Vec<Vec2> = Vec::new();
    let mut i: usize = 0;
    while i < n
        invariant
            i <= n,
            n == s.len(),
            n <= MAX_PARTICLES,
            s == store.models(),
            store.wf(),
            m@.wf(),
            0 <= g <= GRAVITY_LIMIT,
            forces@.len() == i,
            forall|k: int|
                0 <= k < i ==> #[trigger] forces@[k]@ == net_force(s, k, m@, g as int),
            forall|k: int| 0 <= k < i ==> force_bounded(#[trigger] forces@[k]),
        decreases n - i,
    {
        let p = store.particles[i];
        assert(p@ == s[i as int]);
        let mut acc_x: i64 = 0;
        let mut acc_y: i64 = 0;
        let mut j: usize = 0;
        while j < n
            invariant
                j <= n,
                i < n,
                n == s.len(),
                n <= MAX_PARTICLES,
                s == store.models(),
                store.wf(),
                m@.wf(),
                0 <= g <= GRAVITY_LIMIT,
                p@ == s[i as int],
                acc_x as int == net_force_prefix(s, i as int, j as int, m@, g as int).x,
                acc_y as int == net_force_prefix(s, i as int, j as int, m@, g as int).y,
                -(j as int) * 5000 <= acc_x <= (j as int) * 5000,
                -(j as int) * 5000 <= acc_y <= (j as int) * 5000,
            decreases n - j,
        {
            if j != i {
                let q = store.particles[j];
                assert(q@ == s[j as int]);
                assert(pos_bounded(p@.pos) && pos_bounded(q@.pos));
                let f = pair_force(&p, &q, m, g);
                acc_x = acc_x + f.x;
                acc_y = acc_y + f.y;
            }
            j = j + 1;
        }
        forces.push(Vec2 { x: acc_x, y: acc_y });
        i = i + 1;
    }
    forces
}

/// The sign convention, for every geometry beyond the cutoff: with a
/// non-negative gravity scale, a non-negative coefficient gives a
/// contribution that points (weakly) from the source toward the target
/// on each axis — attraction — and a non-positive coefficient gives one
/// that points away from it — repulsion. Reversing the formula's leading
/// minus sign would invert this for every configuration.
pub proof fn lemma_sign_convention(p: PModel, q: PModel, m: MatrixView, g: int)
    requires
        g >= 0,
    ensures
        ({
            let c = m.coeff(p.category, q.category);
            let f = pair_contrib(p, q, m, g);
            &&& c >= 0 ==> (q.pos.x >= p.pos.x ==> f.x >= 0) && (q.pos.x <= p.pos.x ==> f.x <= 0)
                && (q.pos.y >= p.pos.y ==> f.y >= 0) && (q.pos.y <= p.pos.y ==> f.y <= 0)
            &&& c <= 0 ==> (q.pos.x >= p.pos.x ==> f.x <= 0) && (q.pos.x <= p.pos.x ==> f.x >= 0)
                && (q.pos.y >= p.pos.y ==> f.y <= 0) && (q.pos.y <= p.pos.y ==> f.y >= 0)
        }),
{
    let c = m.coeff(p.category, q.category);
    let dx = p.pos.x - q.pos.x;
    let dy = p.pos.y - q.pos.y;
    let r2 = dist2(p.pos, q.pos);
    assert(r2 >= 0 && abs_val(dx) * abs_val(dx) <= r2 && abs_val(dy) * abs_val(dy) <= r2)
        by (nonlinear_arith)
        requires
            r2 == dx * dx + dy * dy,
            abs_val(dx) == if dx < 0 {
                -dx
            } else {
                dx
            },
            abs_val(dy) == if dy < 0 {
                -dy
            } else {
                dy
            },
    ;
    lemma_sqrt_floor_bounds(r2);
    let r = sqrt_floor(r2);
    if r > MIN_DISTANCE {
        assert(r2 >= r * r > 0) by (nonlinear_arith)
            requires
                r > 10000,
                r * r <= r2,
        ;
        let num = abs_val(c) * g * SCALE;
        assert(num >= 0 && (c == 0 ==> num == 0)) by (nonlinear_arith)
            requires
                num == abs_val(c) * g * SCALE,
                abs_val(c) >= 0,
                c == 0 ==> abs_val(c) == 0,
                g >= 0,
        ;
        let a2 = num / r2;
        lemma_div_pos_is_pos(num, r2);
        if num == 0 {
            lemma_div_of0(r2);
        }
        assert(a2 * abs_val(dx) >= 0 && a2 * abs_val(dy) >= 0 && (a2 == 0 ==> a2 * abs_val(dx)
            == 0 && a2 * abs_val(dy) == 0) && (dx == 0 ==> a2 * abs_val(dx) == 0) && (dy == 0
            ==> a2 * abs_val(dy) == 0)) by (nonlinear_arith)
            requires
                a2 >= 0,
                abs_val(dx) >= 0,
                abs_val(dy) >= 0,
                dx == 0 ==> abs_val(dx) == 0,
                dy == 0 ==> abs_val(dy) == 0,
        ;
        lemma_div_pos_is_pos(a2 * abs_val(dx), r);
        lemma_div_pos_is_pos(a2 * abs_val(dy), r);
        if a2 * abs_val(dx) == 0 || a2 * abs_val(dy) == 0 {
            lemma_div_of0(r);
        }
    }
}

/// A pair at distance `MIN_DISTANCE` or closer contributes nothing, in
/// both directions: the mutual short-range cutoff.
pub proof fn lemma_close_pair_contributes_nothing(p: PModel, q: PModel, m: MatrixView, g: int)
    requires
        sqrt_floor(dist2(p.pos, q.pos)) <= MIN_DISTANCE,
    ensures
        pair_contrib(p, q, m, g) == v2_zero(),
        pair_contrib(q, p, m, g) == v2_zero(),
{
    assert(dist2(p.pos, q.pos) == dist2(q.pos, p.pos)) by (nonlinear_arith);
}

/// With zero or one particle in the store, every net force is the zero
/// vector: an empty sum.
pub proof fn lemma_lone_particle_no_force(s: Seq<PModel>, i: int, m: MatrixView, g: int)
    requires
        s.len() <= 1,
        0 <= i < s.len(),
    ensures
        net_force(s, i, m, g) == v2_zero(),
{
    assert(s.len() == 1 && i == 0);
    assert(net_force_prefix(s, 0int, 0int, m, g) == v2_zero());
    assert(net_force_prefix(s, 0int, 1int, m, g) == net_force_prefix(s, 0int, 0int, m, g));
}

/// A contribution depends on the matrix only through the entry for
/// (source category, target category), in that order: two matrices that
/// agree on that one entry give the same contribution, whatever their
/// other fifteen entries hold.
pub proof fn lemma_contrib_reads_source_target_entry(
    p: PModel,
    q: PModel,
    m1: MatrixView,
    m2: MatrixView,
    g: int,
)
    requires
        m1.coeff(p.category, q.category) == m2.coeff(p.category, q.category),
    ensures
        pair_contrib(p, q, m1, g) == pair_contrib(p, q, m2, g),
{
}

/// In a two-particle store the net forces are exactly the two single
/// contributions: the force on each particle is weighted by the matrix
/// entry whose row is its own category (source) and whose column is the
/// other's (target) — asymmetric in general.
pub proof fn lemma_two_particle_forces(s: Seq<PModel>, m: MatrixView, g: int)
    requires
        s.len() == 2,
    ensures
        net_force(s, 0, m, g) == pair_contrib(s[0], s[1], m, g),
        net_force(s, 1, m, g) == pair_contrib(s[1], s[0], m, g),
{
    assert(net_force_prefix(s, 0int, 0int, m, g) == v2_zero());
    assert(net_force_prefix(s, 0int, 1int, m, g) == net_force_prefix(s, 0int, 0int, m, g));
    assert(net_force_prefix(s, 0int, 2int, m, g) == v2_add(
        net_force_prefix(s, 0int, 1int, m, g),
        pair_contrib(s[0], s[1], m, g),
    ));
    assert(v2_add(v2_zero(), pair_contrib(s[0], s[1], m, g)) == pair_contrib(s[0], s[1], m, g));
    assert(net_force_prefix(s, 1int, 0int, m, g) == v2_zero());
    assert(net_force_prefix(s, 1int, 1int, m, g) == v2_add(
        net_force_prefix(s, 1int, 0int, m, g),
        pair_contrib(s[1], s[0], m, g),
    ));
    assert(net_force_prefix(s, 1int, 2int, m, g) == net_force_prefix(s, 1int, 1int, m, g));
    assert(v2_add(v2_zero(), pair_contrib(s[1], s[0], m, g)) == pair_contrib(s[1], s[0], m, g));
}

} // verus!
