use vstd::prelude::*;

use crate::geom::{rescale, rescaled, trunc_div, Vec2i};

verus! {

// Units: time in microseconds, positions in billionths of a world unit,
// velocities in thousandths of a world unit per second. A velocity times a
// time step is then a displacement, with no rounding.
/// Time that a velocity must go without fresh input before friction acts.
pub const QUIESCENCE: u64 = 100_000;

/// Least time between two shots.
pub const COOLDOWN: u64 = 100_000;

/// Friction multiplies a velocity by `DECAY_NUM / DECAY_DEN` each frame.
pub const DECAY_NUM: i64 = 7;

pub const DECAY_DEN: i64 = 10;

/// Velocity that input adds per microsecond of the frame (5000 units/s²).
pub const ACCEL: i64 = 5;

/// Greatest speed that input may give the player (500 units/s).
pub const SPEED_CAP: i64 = 500_000;

/// Speed of a projectile (2000 units/s).
pub const PROJECTILE_SPEED: i64 = 2_000_000;

/// Distance from the player at which a projectile appears (50 units).
pub const SPAWN_OFFSET: i64 = 50_000_000_000;

/// Time that a projectile lives (0.5 s).
pub const LIFESPAN: u64 = 500_000;

/// Screen point that pointer positions are measured from (640, 400).
pub const CENTER_X: i64 = 640_000_000_000;

pub const CENTER_Y: i64 = 400_000_000_000;

/// Longest frame that the input rules accept (about 31 years).
pub const MAX_DT: u64 = 1_000_000_000_000_000;

/// Bound on pointer coordinates and on the player's position.
pub const PLAYER_LIMIT: i64 = 0x2000_0000_0000_0000;

/// Bound on projectile positions.
pub const PROJECTILE_LIMIT: i64 = 0x4000_0000_0000_0000;

/// Latest time at which a projectile can still be given an expiry time.
pub const MAX_TIME: u64 = 18_446_744_073_708_551_615;

/// Position and facing of an entity. The facing is the direction of the
/// heading vector, whose length carries no meaning.
#[derive(Clone, Copy, Debug, PartialEq, Eq, Structural)]
pub struct Transform {
    pub position: Vec2i,
    pub heading: Vec2i,
}

#[derive(Clone, Copy, Debug, PartialEq, Eq, Structural)]
pub struct Velocity {
    pub magnitude: Vec2i,
    /// Time of the last change by input.
    pub last_change: u64,
    /// Set on projectiles, which friction never slows.
    pub no_friction: bool,
}

#[derive(Clone, Copy, Debug, PartialEq, Eq, Structural)]
pub struct Shooter {
    /// Offset from the player to the pointer.
    pub shoot_direction: Vec2i,
    /// Facing given to spawned projectiles.
    pub shoot_heading: Vec2i,
    /// Time of the last shot, if any.
    pub last_shot_at: Option<u64>,
}

#[derive(Clone, Copy, Debug, PartialEq, Eq, Structural)]
pub struct Lifespan {
    pub kill_at: u64,
}

/// The logical keys held down in a frame.
#[derive(Clone, Copy, Debug, PartialEq, Eq, Structural)]
pub struct Keys {
    pub up: bool,
    pub down: bool,
    pub left: bool,
    pub right: bool,
}

pub open spec fn fits_i64(v: int) -> bool {
    i64::MIN <= v <= i64::MAX
}

pub open spec fn key_axis(plus: bool, minus: bool) -> int {
    (if plus {
        1int
    } else {
        0int
    }) - (if minus {
        1int
    } else {
        0int
    })
}

/// The transform after moving for `dt` at velocity `v`.
pub open spec fn moved(t: Transform, v: Velocity, dt: u64) -> (Transform, bool) {
    let x = t.position.x + v.magnitude.x * dt;
    let y = t.position.y + v.magnitude.y * dt;
    (
        Transform { position: Vec2i { x: x as i64, y: y as i64 }, heading: t.heading },
        fits_i64(x) && fits_i64(y),
    )
}

/// Moves `t` by `v.magnitude * dt` on each axis.
pub fn integrate(t: &mut Transform, v: &Velocity, dt: u64)
    requires
        moved(*old(t), *v, dt).1,
    ensures
        final(t).position.x == old(t).position.x + v.magnitude.x * dt,
        final(t).position.y == old(t).position.y + v.magnitude.y * dt,
        final(t).heading == old(t).heading,
        *final(t) == moved(*old(t), *v, dt).0,
{
    let x = t.position.x as i128 + v.magnitude.x as i128 * dt as i128;
    let y = t.position.y as i128 + v.magnitude.y as i128 * dt as i128;
    t.position = Vec2i { x: x as i64, y: y as i64 };
}

/// `x` scaled by the decay factor, rounded toward zero.
pub open spec fn decayed(x: int) -> int {
    trunc_div(x * DECAY_NUM, DECAY_DEN as int)
}

/// Friction acts on `v` at time `now`.
pub open spec fn friction_applies(v: Velocity, now: u64) -> bool {
    !v.no_friction && now - v.last_change > QUIESCENCE && !v.magnitude.is_zero()
}

pub open spec fn decay_spec(v: Velocity, now: u64) -> Velocity {
    if friction_applies(v, now) {
        Velocity {
            magnitude: Vec2i { x: decayed(v.magnitude.x as int) as i64, y: decayed(v.magnitude.y as int) as i64 },
            ..v
        }
    } else {
        v
    }
}

proof fn lemma_decayed_bound(x: int)
    ensures
        x >= 0 ==> 0 <= decayed(x) <= x,
        x < 0 ==> x <= decayed(x) <= 0,
        x != 0 ==> crate::geom::abs(decayed(x)) < crate::geom::abs(x),
{
    if x >= 0 {
        assert(0 <= x * 7 / 10 <= x) by (nonlinear_arith)
            requires
                x >= 0,
        ;
        assert(x > 0 ==> x * 7 / 10 < x) by (nonlinear_arith);
    } else {
        assert(0 <= (-x) * 7 / 10 < -x) by (nonlinear_arith)
            requires
                x < 0,
        ;
        assert(x * 7 == -((-x) * 7));
    }
}

/// Friction never makes a coordinate larger.
pub proof fn lemma_decay_shrinks(v: Velocity, now: u64)
    ensures
        decay_spec(v, now).magnitude.norm_sq() <= v.magnitude.norm_sq(),
{
    if friction_applies(v, now) {
        let x = v.magnitude.x as int;
        let y = v.magnitude.y as int;
        lemma_decayed_bound(x);
        lemma_decayed_bound(y);
        let a = decayed(x);
        let b = decayed(y);
        assert(a * a <= x * x) by (nonlinear_arith)
            requires
                crate::geom::abs(a) <= crate::geom::abs(x),
        ;
        assert(b * b <= y * y) by (nonlinear_arith)
            requires
                crate::geom::abs(b) <= crate::geom::abs(y),
        ;
    }
}

/// Friction lowers the speed of a moving velocity that it acts on.
pub proof fn lemma_decay_strict(v: Velocity, now: u64)
    requires
        friction_applies(v, now),
    ensures
        decay_spec(v, now).magnitude.norm_sq() < v.magnitude.norm_sq(),
{
    let x = v.magnitude.x as int;
    let y = v.magnitude.y as int;
    lemma_decayed_bound(x);
    lemma_decayed_bound(y);
    let a = decayed(x);
    let b = decayed(y);
    assert(a * a <= x * x && (x != 0 ==> a * a < x * x)) by (nonlinear_arith)
        requires
            crate::geom::abs(a) <= crate::geom::abs(x),
            x != 0 ==> crate::geom::abs(a) < crate::geom::abs(x),
    ;
    assert(b * b <= y * y && (y != 0 ==> b * b < y * y)) by (nonlinear_arith)
        requires
            crate::geom::abs(b) <= crate::geom::abs(y),
            y != 0 ==> crate::geom::abs(b) < crate::geom::abs(y),
    ;
}

fn decay_coord(x: i64) -> (r: i64)
    ensures
        r == decayed(x as int),
{
    proof {
        lemma_decayed_bound(x as int);
    }
    if x >= 0 {
        ((x as i128 * 7) / 10) as i64
    } else {
        let m: i128 = -(x as i128);
        (-((m * 7) / 10)) as i64
    }
}

/// Friction: slows a quiescent, moving velocity by the decay factor. The
/// time of the last change stays, so friction acts again on later frames.
pub fn decay(v: Velocity, now: u64) -> (r: Velocity)
    ensures
        r == decay_spec(v, now),
        friction_applies(v, now) ==> r.magnitude.x == decayed(v.magnitude.x as int)
            && r.magnitude.y == decayed(v.magnitude.y as int),
        r.last_change == v.last_change,
        r.no_friction == v.no_friction,
{
    if !v.no_friction && now as i128 - v.last_change as i128 > QUIESCENCE as i128 && !(
    v.magnitude.x == 0 && v.magnitude.y == 0) {
        Velocity {
            magnitude: Vec2i { x: decay_coord(v.magnitude.x), y: decay_coord(v.magnitude.y) },
            last_change: v.last_change,
            no_friction: v.no_friction,
        }
    } else {
        v
    }
}

pub open spec fn any_key(k: Keys) -> bool {
    k.up || k.down || k.left || k.right
}

/// The direction that the keys ask for, scaled by `dt`.
pub open spec fn key_direction(k: Keys, dt: u64) -> Vec2i {
    Vec2i {
        x: (key_axis(k.right, k.left) * dt) as i64,
        y: (key_axis(k.up, k.down) * dt) as i64,
    }
}

/// Input changes the velocity in this frame.
pub open spec fn accelerates(k: Keys, dt: u64) -> bool {
    dt > 0 && (key_axis(k.right, k.left) != 0 || key_axis(k.up, k.down) != 0)
}

/// `v` cut down to the speed cap where it goes beyond it.
pub open spec fn capped(v: Vec2i) -> Vec2i {
    if v.norm_sq() > SPEED_CAP * SPEED_CAP {
        rescaled(v, SPEED_CAP as int)
    } else {
        v
    }
}

pub open spec fn input_spec(v: Velocity, k: Keys, dt: u64, now: u64) -> Velocity {
    if accelerates(k, dt) {
        let a = rescaled(key_direction(k, dt), ACCEL * dt);
        let sum = Vec2i {
            x: (v.magnitude.x + a.x) as i64,
            y: (v.magnitude.y + a.y) as i64,
        };
        Velocity { magnitude: capped(sum), last_change: now, no_friction: v.no_friction }
    } else if any_key(k) {
        Velocity { last_change: now, ..v }
    } else {
        v
    }
}

/// Velocities with coordinates within this bound take any frame's input.
pub open spec fn input_bound() -> int {
    i64::MAX - ACCEL * MAX_DT
}

fn axis(plus: bool, minus: bool) -> (r: i64)
    ensures
        r == key_axis(plus, minus),
        -1 <= r <= 1,
{
    let p: i64 = if plus {
        1
    } else {
        0
    };
    let m: i64 = if minus {
        1
    } else {
        0
    };
    p - m
}

/// Input: accelerates `v` along the direction of the held keys by
/// `ACCEL * dt`, caps the speed, and marks the time of the change.
pub fn apply_input(v: Velocity, k: Keys, dt: u64, now: u64) -> (r: Velocity)
    requires
        dt <= MAX_DT,
        v.magnitude.within(input_bound()),
    ensures
        r == input_spec(v, k, dt, now),
        any_key(k) ==> r.last_change == now,
        !any_key(k) ==> r == v,
        r.no_friction == v.no_friction,
        accelerates(k, dt) || v.magnitude.norm_sq() <= SPEED_CAP * SPEED_CAP ==> r.magnitude.norm_sq()
            <= SPEED_CAP * SPEED_CAP,
{
    let sx = axis(k.right, k.left);
    let sy = axis(k.up, k.down);
    if dt > 0 && (sx != 0 || sy != 0) {
        let dti = dt as i64;
        assert(-dti <= sx * dti <= dti && -dti <= sy * dti <= dti) by (nonlinear_arith)
            requires
                -1 <= sx <= 1,
                -1 <= sy <= 1,
                dti >= 0,
        ;
        assert(sx * dti != 0 || sy * dti != 0) by (nonlinear_arith)
            requires
                sx != 0 || sy != 0,
                dti > 0,
        ;
        let d = Vec2i { x: sx * dti, y: sy * dti };
        let a = rescale(d, ACCEL * dt as i64);
        let sum = Vec2i { x: v.magnitude.x + a.x, y: v.magnitude.y + a.y };
        let sx2 = sum.x as i128;
        let sy2 = sum.y as i128;
        assert(sx2 * sx2 <= 85070591730234615847396907784232501249 && sx2 * sx2 >= 0)
            by (nonlinear_arith)
            requires
                -9223372036854775807 <= sx2 <= 9223372036854775807,
        ;
        assert(sy2 * sy2 <= 85070591730234615847396907784232501249 && sy2 * sy2 >= 0)
            by (nonlinear_arith)
            requires
                -9223372036854775807 <= sy2 <= 9223372036854775807,
        ;
        let xx = sx2 * sx2;
        let yy = sy2 * sy2;
        let m = if xx + yy > SPEED_CAP as i128 * SPEED_CAP as i128 {
            rescale(sum, SPEED_CAP)
        } else {
            sum
        };
        Velocity { magnitude: m, last_change: now, no_friction: v.no_friction }
    } else if k.up || k.down || k.left || k.right {
        Velocity { magnitude: v.magnitude, last_change: now, no_friction: v.no_friction }
    } else {
        v
    }
}

/// Offset from the player to the pointer at screen position `p`.
pub open spec fn view_dir(t: Transform, p: Vec2i) -> Vec2i {
    Vec2i {
        x: (p.x - CENTER_X - t.position.x) as i64,
        y: (p.y - CENTER_Y - t.position.y) as i64,
    }
}

/// Player transform and shooter after one pointer event at `p`. Where the
/// pointer sits on the player, the facing stays as it was.
pub open spec fn aim_spec(t: Transform, s: Shooter, p: Vec2i) -> (Transform, Shooter) {
    let d = view_dir(t, p);
    if d.is_zero() {
        (t, Shooter { shoot_direction: d, ..s })
    } else {
        (
            Transform { heading: Vec2i { x: d.y, y: (-d.x) as i64 }, ..t },
            Shooter { shoot_direction: d, shoot_heading: d, ..s },
        )
    }
}

/// Aim: turns the player a quarter turn clockwise from the pointer and points
/// the shooter at it.
pub fn aim(t: &mut Transform, s: &mut Shooter, p: Vec2i)
    requires
        old(t).position.within(PLAYER_LIMIT as int),
        p.within(PLAYER_LIMIT as int),
    ensures
        (*final(t), *final(s)) == aim_spec(*old(t), *old(s), p),
        final(s).shoot_direction.within(i64::MAX as int),
        final(t).position == old(t).position,
{
    let d = Vec2i {
        x: p.x - CENTER_X - t.position.x,
        y: p.y - CENTER_Y - t.position.y,
    };
    s.shoot_direction = d;
    if !(d.x == 0 && d.y == 0) {
        t.heading = Vec2i { x: d.y, y: -d.x };
        s.shoot_heading = d;
    }
}

/// The shooter may fire at `now`.
pub open spec fn cooled(s: Shooter, now: u64) -> bool {
    match s.last_shot_at {
        None => true,
        Some(at) => now - at > COOLDOWN,
    }
}

/// Direction of a shot; straight along the x axis where the pointer is on
/// the player.
pub open spec fn fire_dir(s: Shooter) -> Vec2i {
    if s.shoot_direction.is_zero() {
        Vec2i { x: 1, y: 0 }
    } else {
        s.shoot_direction
    }
}

/// What makes up a new projectile.
#[derive(Clone, Copy, Debug, PartialEq, Eq, Structural)]
pub struct Shot {
    pub transform: Transform,
    pub velocity: Velocity,
    pub lifespan: Lifespan,
}

pub open spec fn shot_spec(t: Transform, s: Shooter, now: u64) -> Shot {
    let off = rescaled(fire_dir(s), SPAWN_OFFSET as int);
    Shot {
        transform: Transform {
            position: Vec2i {
                x: (t.position.x + off.x) as i64,
                y: (t.position.y + off.y) as i64,
            },
            heading: s.shoot_heading,
        },
        velocity: Velocity {
            magnitude: rescaled(fire_dir(s), PROJECTILE_SPEED as int),
            last_change: now,
            no_friction: true,
        },
        lifespan: Lifespan { kill_at: (now + LIFESPAN) as u64 },
    }
}

/// Fire: where the cooldown has passed, marks the shot and returns the
/// projectile that it spawns.
pub fn try_fire(t: &Transform, s: &mut Shooter, now: u64) -> (r: Option<Shot>)
    requires
        t.position.within(PLAYER_LIMIT as int),
        old(s).shoot_direction.within(i64::MAX as int),
        now <= MAX_TIME,
    ensures
        cooled(*old(s), now) ==> r == Some(shot_spec(*t, *old(s), now)) && *final(s) == (Shooter {
            last_shot_at: Some(now),
            ..*old(s)
        }),
        !cooled(*old(s), now) ==> r.is_none() && *final(s) == *old(s),
        r matches Some(shot) ==> shot.transform.position.within(PROJECTILE_LIMIT as int)
            && shot.velocity.no_friction && shot.lifespan.kill_at == now + LIFESPAN,
{
    let ready = match s.last_shot_at {
        None => true,
        Some(at) => now as i128 - at as i128 > COOLDOWN as i128,
    };
    if !ready {
        return None;
    }
    s.last_shot_at = Some(now);
    let dir = if s.shoot_direction.x == 0 && s.shoot_direction.y == 0 {
        Vec2i { x: 1, y: 0 }
    } else {
        s.shoot_direction
    };
    let off = rescale(dir, SPAWN_OFFSET);
    let vel = rescale(dir, PROJECTILE_SPEED);
    Some(
        Shot {
            transform: Transform {
                position: Vec2i { x: t.position.x + off.x, y: t.position.y + off.y },
                heading: s.shoot_heading,
            },
            velocity: Velocity { magnitude: vel, last_change: now, no_friction: true },
            lifespan: Lifespan { kill_at: now + LIFESPAN },
        },
    )
}

/// The entity holding `l` is gone at `now`.
pub open spec fn expired(l: Lifespan, now: u64) -> bool {
    now >= l.kill_at
}

pub fn is_expired(l: &Lifespan, now: u64) -> (r: bool)
    ensures
        r == expired(*l, now),
{
    now >= l.kill_at
}

} // verus!
