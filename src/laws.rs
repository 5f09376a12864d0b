use vstd::prelude::*;

use crate::geom::{lemma_rescaled_spec_norm, Vec2i};
use crate::sim::{
    accelerates, cooled, decay_spec, friction_applies, input_spec, moved, Keys, Shooter,
    Transform, Velocity, COOLDOWN, LIFESPAN, SPEED_CAP,
};
use crate::world::{alive, fire_all, FireEvent, Projectile};

verus! {

/// Moving for a time step shifts each coordinate by the velocity times the
/// step, and a step of zero leaves the transform as it was.
pub proof fn law_integration(t: Transform, v: Velocity, dt: u64)
    requires
        moved(t, v, dt).1,
    ensures
        moved(t, v, dt).0.position.x == t.position.x + v.magnitude.x * dt,
        moved(t, v, dt).0.position.y == t.position.y + v.magnitude.y * dt,
        moved(t, v, dt).0.heading == t.heading,
        dt == 0 ==> moved(t, v, dt).0 == t,
{
    if dt == 0 {
        assert(v.magnitude.x * dt == 0 && v.magnitude.y * dt == 0) by (nonlinear_arith)
            requires
                dt == 0,
        ;
        assert(moved(t, v, dt).0.position =~= t.position);
    }
}

/// Friction never raises the speed, lowers it strictly while the velocity
/// is nonzero and friction acts, and leaves a velocity at rest unchanged.
pub proof fn law_friction_step(v: Velocity, now: u64)
    ensures
        decay_spec(v, now).magnitude.norm_sq() <= v.magnitude.norm_sq(),
        friction_applies(v, now) ==> decay_spec(v, now).magnitude.norm_sq()
            < v.magnitude.norm_sq(),
        v.magnitude.is_zero() ==> decay_spec(v, now) == v,
        v.no_friction ==> decay_spec(v, now) == v,
{
    crate::sim::lemma_decay_shrinks(v, now);
    if friction_applies(v, now) {
        crate::sim::lemma_decay_strict(v, now);
    }
}

/// Velocity after friction at each of the times in `times`, in order.
pub open spec fn decay_steps(v: Velocity, times: Seq<u64>) -> Velocity
    decreases times.len(),
{
    if times.len() == 0 {
        v
    } else {
        decay_spec(decay_steps(v, times.drop_last()), times.last())
    }
}

/// Along repeated friction steps the speed never rises.
pub proof fn law_friction_repeated(v: Velocity, times: Seq<u64>, i: int, j: int)
    requires
        0 <= i <= j <= times.len(),
    ensures
        decay_steps(v, times.take(j)).magnitude.norm_sq() <= decay_steps(
            v,
            times.take(i),
        ).magnitude.norm_sq(),
    decreases j - i,
{
    if i < j {
        law_friction_repeated(v, times, i, j - 1);
        assert(times.take(j).drop_last() =~= times.take(j - 1));
        crate::sim::lemma_decay_shrinks(decay_steps(v, times.take(j - 1)), times.take(j).last());
    }
}

/// Whatever velocity it starts from, a frame in which input accelerates the
/// player ends within the speed cap; one that starts within the cap stays so.
pub proof fn law_speed_cap(v: Velocity, k: Keys, dt: u64, now: u64)
    requires
        accelerates(k, dt) || v.magnitude.norm_sq() <= SPEED_CAP * SPEED_CAP,
    ensures
        input_spec(v, k, dt, now).magnitude.norm_sq() <= SPEED_CAP * SPEED_CAP,
{
    if accelerates(k, dt) {
        let a = crate::geom::rescaled(crate::sim::key_direction(k, dt), crate::sim::ACCEL * dt);
        let sum = Vec2i { x: (v.magnitude.x + a.x) as i64, y: (v.magnitude.y + a.y) as i64 };
        if sum.norm_sq() > SPEED_CAP * SPEED_CAP {
            assert(!sum.is_zero());
            lemma_rescaled_spec_norm(sum, SPEED_CAP as int);
        }
    }
}

/// State of a shooter after a fire trigger at `now`.
pub open spec fn after_trigger(s: Shooter, now: u64) -> Shooter {
    if cooled(s, now) {
        Shooter { last_shot_at: Some(now), ..s }
    } else {
        s
    }
}

/// Of two fire triggers at most the cooldown apart, at most one fires; of two
/// more than the cooldown apart, the second fires.
pub proof fn law_cooldown(s: Shooter, t1: u64, t2: u64)
    requires
        t1 <= t2,
        s.last_shot_at matches Some(a) ==> a <= t1,
    ensures
        t2 - t1 <= COOLDOWN ==> !(cooled(s, t1) && cooled(after_trigger(s, t1), t2)),
        t2 - t1 > COOLDOWN ==> cooled(after_trigger(s, t1), t2),
{
}

/// Fire triggers that share one frame's time spawn at most one projectile.
pub proof fn law_one_shot_per_frame(t: Transform, s: Shooter, evs: Seq<FireEvent>, now: u64)
    ensures
        fire_all(t, s, evs, now).1.len() <= 1,
        fire_all(t, s, evs, now).1.len() == 1 ==> fire_all(t, s, evs, now).0.last_shot_at
            == Some(now),
    decreases evs.len(),
{
    if evs.len() > 0 {
        law_one_shot_per_frame(t, s, evs.drop_last(), now);
    }
}

/// A projectile that was spawned at `t0` outlives a reaping at `now` exactly
/// when `now` comes before `t0` plus the lifespan.
pub proof fn law_lifespan(ps: Seq<Projectile>, i: int, t0: u64, now: u64)
    requires
        0 <= i < ps.len(),
        ps[i].lifespan.kill_at == t0 + LIFESPAN,
    ensures
        ps.filter(alive(now)).contains(ps[i]) <==> now < t0 + LIFESPAN,
{
    if now < t0 + LIFESPAN {
        ps.lemma_filter_contains(alive(now), i);
    } else if ps.filter(alive(now)).contains(ps[i]) {
        let k = choose|k: int| 0 <= k < ps.filter(alive(now)).len() && ps.filter(alive(now))[k] == ps[i];
        ps.lemma_filter_pred(alive(now), k);
    }
}

} // verus!
