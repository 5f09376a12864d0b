use vstd::prelude::*;

use crate::geom::Vec2i;
use crate::sim::{
    aim, aim_spec, apply_input, cooled, decay, decay_spec, expired, input_bound, input_spec,
    integrate, is_expired, moved, shot_spec, try_fire, Keys, Lifespan, Shooter, Shot,
    Transform, Velocity, MAX_DT, MAX_TIME, PLAYER_LIMIT, PROJECTILE_LIMIT, SPEED_CAP,
};

verus! {

/// The entity that the keys steer and that fires.
#[derive(Clone, Copy, Debug, PartialEq, Eq, Structural)]
pub struct Player {
    pub transform: Transform,
    pub velocity: Velocity,
    pub shooter: Shooter,
}

/// A short-lived entity spawned by a shot.
#[derive(Clone, Copy, Debug, PartialEq, Eq, Structural)]
pub struct Projectile {
    pub id: u64,
    pub transform: Transform,
    pub velocity: Velocity,
    pub lifespan: Lifespan,
}

#[derive(Clone, Copy, Debug, PartialEq, Eq, Structural)]
pub enum MouseButton {
    Left,
    Right,
    Middle,
    Other,
}

/// A change of a mouse button's state.
#[derive(Clone, Copy, Debug, PartialEq, Eq, Structural)]
pub struct FireEvent {
    pub button: MouseButton,
    pub pressed: bool,
}

/// The entity store: the player, and the live projectiles in order of spawning.
pub struct World {
    pub player: Player,
    pub projectiles: Vec<Projectile>,
    /// Identifier that the next projectile gets.
    pub next_id: u64,
}

pub open spec fn projectile_wf(p: Projectile) -> bool {
    p.transform.position.within(PROJECTILE_LIMIT as int) && p.velocity.no_friction
}

/// Player state after the pointer events `evs`, applied in order.
pub open spec fn aim_all(t: Transform, s: Shooter, evs: Seq<Vec2i>) -> (Transform, Shooter)
    decreases evs.len(),
{
    if evs.len() == 0 {
        (t, s)
    } else {
        let prev = aim_all(t, s, evs.drop_last());
        aim_spec(prev.0, prev.1, evs.last())
    }
}

pub open spec fn triggers(e: FireEvent) -> bool {
    e.button == MouseButton::Left && e.pressed
}

/// Shooter state after the fire events `evs` at time `now`, and the shots
/// that they spawn, in order.
pub open spec fn fire_all(t: Transform, s: Shooter, evs: Seq<FireEvent>, now: u64) -> (
    Shooter,
    Seq<Shot>,
)
    decreases evs.len(),
{
    if evs.len() == 0 {
        (s, Seq::empty())
    } else {
        let prev = fire_all(t, s, evs.drop_last(), now);
        if triggers(evs.last()) && cooled(prev.0, now) {
            (Shooter { last_shot_at: Some(now), ..prev.0 }, prev.1.push(shot_spec(t, prev.0, now)))
        } else {
            prev
        }
    }
}

pub open spec fn from_shot(id: u64, s: Shot) -> Projectile {
    Projectile { id, transform: s.transform, velocity: s.velocity, lifespan: s.lifespan }
}

/// The position after moving for `dt` stays within `limit`.
pub open spec fn moves_within(t: Transform, v: Velocity, dt: u64, limit: int) -> bool {
    -limit <= t.position.x + v.magnitude.x * dt <= limit && -limit <= t.position.y
        + v.magnitude.y * dt <= limit
}

/// The projectile still lives at `now`.
pub open spec fn alive(now: u64) -> spec_fn(Projectile) -> bool {
    |p: Projectile| !expired(p.lifespan, now)
}

impl World {
    pub open spec fn wf(&self) -> bool {
        &&& self.player.transform.position.within(PLAYER_LIMIT as int)
        &&& self.player.velocity.magnitude.norm_sq() <= SPEED_CAP * SPEED_CAP
        &&& self.player.shooter.shoot_direction.within(i64::MAX as int)
        &&& forall|i: int|
            0 <= i < self.projectiles@.len() ==> #[trigger] projectile_wf(self.projectiles@[i])
    }

    /// Every entity stays within the bounds of the store after moving for `dt`.
    pub open spec fn movement_fits(&self, dt: u64) -> bool {
        &&& moves_within(self.player.transform, self.player.velocity, dt, PLAYER_LIMIT as int)
        &&& forall|i: int|
            0 <= i < self.projectiles@.len() ==> moves_within(
                #[trigger] self.projectiles@[i].transform,
                self.projectiles@[i].velocity,
                dt,
                PROJECTILE_LIMIT as int,
            )
    }

    /// A store with the player at rest at the origin, facing along the x axis,
    /// and no projectiles.
    pub fn new() -> (w: World)
        ensures
            w.wf(),
            w.player.transform.position == (Vec2i { x: 0, y: 0 }),
            w.player.transform.heading == (Vec2i { x: 1, y: 0 }),
            w.player.velocity == (Velocity {
                magnitude: Vec2i { x: 0, y: 0 },
                last_change: 0,
                no_friction: false,
            }),
            w.player.shooter == (Shooter {
                shoot_direction: Vec2i { x: 0, y: 0 },
                shoot_heading: Vec2i { x: 1, y: 0 },
                last_shot_at: None,
            }),
            w.projectiles@.len() == 0,
            w.next_id == 0,
    {
        World {
            player: Player {
                transform: Transform { position: Vec2i { x: 0, y: 0 }, heading: Vec2i { x: 1, y: 0 } },
                velocity: Velocity {
                    magnitude: Vec2i { x: 0, y: 0 },
                    last_change: 0,
                    no_friction: false,
                },
                shooter: Shooter {
                    shoot_direction: Vec2i { x: 0, y: 0 },
                    shoot_heading: Vec2i { x: 1, y: 0 },
                    last_shot_at: None,
                },
            },
            projectiles: Vec::new(),
            next_id: 0,
        }
    }
    /// Input Controller: applies the held keys to the player's velocity.
    pub fn input_system(&mut self, k: Keys, dt: u64, now: u64)
        requires
            old(self).wf(),
            dt <= MAX_DT,
        ensures
            final(self).wf(),
            final(self).player.velocity == input_spec(old(self).player.velocity, k, dt, now),
            final(self).player.transform == old(self).player.transform,
            final(self).player.shooter == old(self).player.shooter,
            final(self).projectiles@ == old(self).projectiles@,
            final(self).next_id == old(self).next_id,
    {
        proof {
            crate::geom::lemma_norm_bounds_coords(
                self.player.velocity.magnitude,
                SPEED_CAP as int,
            );
        }
        assert(self.player.velocity.magnitude.within(input_bound()));
        self.player.velocity = apply_input(self.player.velocity, k, dt, now);
    }

    /// Friction Decay: slows the player where it has had no input for a while.
    /// Projectiles are never slowed.
    pub fn friction_system(&mut self, now: u64)
        requires
            old(self).wf(),
        ensures
            final(self).wf(),
            final(self).player.velocity == decay_spec(old(self).player.velocity, now),
            final(self).player.transform == old(self).player.transform,
            final(self).player.shooter == old(self).player.shooter,
            final(self).projectiles@ == old(self).projectiles@,
            final(self).next_id == old(self).next_id,
    {
        let v = decay(self.player.velocity, now);
        proof {
            lemma_decay_norm(self.player.velocity, now);
        }
        self.player.velocity = v;
    }

    /// Aim Tracker: applies the pointer events in order of arrival.
    pub fn aim_system(&mut self, events: &Vec<Vec2i>)
        requires
            old(self).wf(),
            forall|i: int| 0 <= i < events@.len() ==> #[trigger] events@[i].within(PLAYER_LIMIT as int),
        ensures
            final(self).wf(),
            (final(self).player.transform, final(self).player.shooter) == aim_all(
                old(self).player.transform,
                old(self).player.shooter,
                events@,
            ),
            final(self).player.velocity == old(self).player.velocity,
            final(self).projectiles@ == old(self).projectiles@,
            final(self).next_id == old(self).next_id,
    {
        let mut i: usize = 0;
        while i < events.len()
            invariant
                0 <= i <= events@.len(),
                forall|j: int| 0 <= j < events@.len() ==> #[trigger] events@[j].within(PLAYER_LIMIT as int),
                self.wf(),
                (self.player.transform, self.player.shooter) == aim_all(
                    old(self).player.transform,
                    old(self).player.shooter,
                    events@.subrange(0, i as int),
                ),
                self.player.transform.position == old(self).player.transform.position,
                self.player.velocity == old(self).player.velocity,
                self.projectiles@ == old(self).projectiles@,
                self.next_id == old(self).next_id,
            decreases events@.len() - i,
        {
            let p = events[i];
            assert(events@.subrange(0, i + 1).drop_last() =~= events@.subrange(0, i as int));
            aim(&mut self.player.transform, &mut self.player.shooter, p);
            i = i + 1;
        }
        assert(events@.subrange(0, i as int) =~= events@);
    }

    /// Movement Integrator: moves every entity by its velocity times `dt`.
    pub fn movement_system(&mut self, dt: u64)
        requires
            old(self).wf(),
            old(self).movement_fits(dt),
        ensures
            final(self).wf(),
            final(self).player.transform == moved(
                old(self).player.transform,
                old(self).player.velocity,
                dt,
            ).0,
            final(self).player.velocity == old(self).player.velocity,
            final(self).player.shooter == old(self).player.shooter,
            final(self).projectiles@.len() == old(self).projectiles@.len(),
            forall|i: int|
                0 <= i < final(self).projectiles@.len() ==> #[trigger] final(self).projectiles@[i]
                    == (Projectile {
                    transform: moved(
                        old(self).projectiles@[i].transform,
                        old(self).projectiles@[i].velocity,
                        dt,
                    ).0,
                    ..old(self).projectiles@[i]
                }),
            final(self).next_id == old(self).next_id,
    {
        integrate(&mut self.player.transform, &self.player.velocity, dt);
        let n = self.projectiles.len();
        let mut i: usize = 0;
        while i < n
            invariant
                n == self.projectiles@.len() == old(self).projectiles@.len(),
                0 <= i <= n,
                self.player.transform == moved(
                    old(self).player.transform,
                    old(self).player.velocity,
                    dt,
                ).0,
                self.player.velocity == old(self).player.velocity,
                self.player.shooter == old(self).player.shooter,
                self.next_id == old(self).next_id,
                old(self).wf(),
                old(self).movement_fits(dt),
                forall|j: int|
                    0 <= j < i ==> #[trigger] self.projectiles@[j] == (Projectile {
                        transform: moved(
                            old(self).projectiles@[j].transform,
                            old(self).projectiles@[j].velocity,
                            dt,
                        ).0,
                        ..old(self).projectiles@[j]
                    }),
                forall|j: int| i <= j < n ==> #[trigger] self.projectiles@[j] == old(self).projectiles@[j],
            decreases n - i,
        {
            let mut p = self.projectiles[i];
            assert(moves_within(
                old(self).projectiles@[i as int].transform,
                old(self).projectiles@[i as int].velocity,
                dt,
                PROJECTILE_LIMIT as int,
            ));
            integrate(&mut p.transform, &p.velocity, dt);
            self.projectiles.set(i, p);
            i = i + 1;
        }
        assert forall|j: int| 0 <= j < self.projectiles@.len() implies #[trigger] projectile_wf(
            self.projectiles@[j],
        ) by {
            assert(projectile_wf(old(self).projectiles@[j]));
            assert(moves_within(
                old(self).projectiles@[j].transform,
                old(self).projectiles@[j].velocity,
                dt,
                PROJECTILE_LIMIT as int,
            ));
        }
    }

    /// Whether `movement_system` may run with `dt`: every entity stays within
    /// the bounds of the store.
    pub fn can_move(&self, dt: u64) -> (r: bool)
        requires
            self.wf(),
        ensures
            r == self.movement_fits(dt),
    {
        if !fits_after(&self.player.transform, &self.player.velocity, dt, PLAYER_LIMIT) {
            return false;
        }
        let mut i: usize = 0;
        while i < self.projectiles.len()
            invariant
                0 <= i <= self.projectiles@.len(),
                moves_within(self.player.transform, self.player.velocity, dt, PLAYER_LIMIT as int),
                forall|j: int|
                    0 <= j < i ==> moves_within(
                        #[trigger] self.projectiles@[j].transform,
                        self.projectiles@[j].velocity,
                        dt,
                        PROJECTILE_LIMIT as int,
                    ),
            decreases self.projectiles@.len() - i,
        {
            if !fits_after(&self.projectiles[i].transform, &self.projectiles[i].velocity, dt, PROJECTILE_LIMIT) {
                return false;
            }
            i = i + 1;
        }
        true
    }

    /// Fire Controller: each press of the left button fires where the
    /// cooldown allows. New projectiles get consecutive identifiers.
    pub fn fire_system(&mut self, events: &Vec<FireEvent>, now: u64)
        requires
            old(self).wf(),
            now <= MAX_TIME,
            old(self).next_id + events@.len() <= u64::MAX,
        ensures
            final(self).wf(),
            ({
                let (s, shots) = fire_all(
                    old(self).player.transform,
                    old(self).player.shooter,
                    events@,
                    now,
                );
                &&& final(self).player.shooter == s
                &&& final(self).projectiles@ == old(self).projectiles@ + shots.map(
                    |j: int, sh: Shot| from_shot((old(self).next_id + j) as u64, sh),
                )
                &&& final(self).next_id == old(self).next_id + shots.len()
            }),
            final(self).player.transform == old(self).player.transform,
            final(self).player.velocity == old(self).player.velocity,
    {
        let ghost t0 = self.player.transform;
        let ghost base = old(self).next_id;
        let ghost start = old(self).projectiles@;
        let mut i: usize = 0;
        while i < events.len()
            invariant
                0 <= i <= events@.len(),
                now <= MAX_TIME,
                base == old(self).next_id,
                start == old(self).projectiles@,
                base + events@.len() <= u64::MAX,
                self.wf(),
                self.player.transform == t0,
                t0 == old(self).player.transform,
                self.player.velocity == old(self).player.velocity,
                ({
                    let (s, shots) = fire_all(t0, old(self).player.shooter, events@.subrange(0, i as int), now);
                    &&& self.player.shooter == s
                    &&& self.projectiles@ == start + shots.map(
                        |j: int, sh: Shot| from_shot((base + j) as u64, sh),
                    )
                    &&& self.next_id == base + shots.len()
                    &&& shots.len() <= i
                }),
            decreases events@.len() - i,
        {
            let e = events[i];
            let ghost prev = fire_all(t0, old(self).player.shooter, events@.subrange(0, i as int), now);
            assert(events@.subrange(0, i + 1).drop_last() =~= events@.subrange(0, i as int));
            assert(events@.subrange(0, i + 1).last() == e);
            if e.button == MouseButton::Left && e.pressed {
                let shot = try_fire(&self.player.transform, &mut self.player.shooter, now);
                if let Some(sh) = shot {
                    let p = Projectile {
                        id: self.next_id,
                        transform: sh.transform,
                        velocity: sh.velocity,
                        lifespan: sh.lifespan,
                    };
                    let ghost old_ps = self.projectiles@;
                    self.projectiles.push(p);
                    self.next_id = self.next_id + 1;
                    proof {
                        let shots2 = prev.1.push(shot_spec(t0, prev.0, now));
                        let f = |j: int, sh: Shot| from_shot((base + j) as u64, sh);
                        assert(shots2.map(f) =~= prev.1.map(f).push(from_shot((base + prev.1.len()) as u64, shot_spec(t0, prev.0, now))));
                        assert(self.projectiles@ =~= start + shots2.map(f));
                    }
                }
            }
            i = i + 1;
        }
        assert(events@.subrange(0, i as int) =~= events@);
    }

    /// Lifespan Reaper: removes every projectile whose time is up at `now`.
    pub fn reap_system(&mut self, now: u64)
        requires
            old(self).wf(),
        ensures
            final(self).wf(),
            final(self).projectiles@ == old(self).projectiles@.filter(alive(now)),
            final(self).player == old(self).player,
            final(self).next_id == old(self).next_id,
    {
        let mut kept: Vec<Projectile> = Vec::new();
        let mut i: usize = 0;
        while i < self.projectiles.len()
            invariant
                0 <= i <= self.projectiles@.len(),
                self.wf(),
                *self == *old(self),
                kept@ == self.projectiles@.subrange(0, i as int).filter(alive(now)),
                forall|j: int| 0 <= j < kept@.len() ==> #[trigger] projectile_wf(kept@[j]),
            decreases self.projectiles@.len() - i,
        {
            let p = self.projectiles[i];
            proof {
                let s = self.projectiles@.subrange(0, i + 1);
                assert(s.drop_last() =~= self.projectiles@.subrange(0, i as int));
                reveal(Seq::filter);
            }
            if !is_expired(&p.lifespan, now) {
                kept.push(p);
            }
            i = i + 1;
        }
        assert(self.projectiles@.subrange(0, i as int) =~= self.projectiles@);
        self.projectiles = kept;
    }
}

fn fits_after(t: &Transform, v: &Velocity, dt: u64, limit: i64) -> (r: bool)
    requires
        limit >= 0,
    ensures
        r == moves_within(*t, *v, dt, limit as int),
{
    let l = limit as i128;
    assert(-9223372036854775808 * 18446744073709551615 <= v.magnitude.x * dt
        <= 9223372036854775807 * 18446744073709551615) by (nonlinear_arith)
        requires
            i64::MIN <= v.magnitude.x <= i64::MAX,
            0 <= dt <= u64::MAX,
    ;
    assert(-9223372036854775808 * 18446744073709551615 <= v.magnitude.y * dt
        <= 9223372036854775807 * 18446744073709551615) by (nonlinear_arith)
        requires
            i64::MIN <= v.magnitude.y <= i64::MAX,
            0 <= dt <= u64::MAX,
    ;
    let x = t.position.x as i128 + v.magnitude.x as i128 * dt as i128;
    let y = t.position.y as i128 + v.magnitude.y as i128 * dt as i128;
    -l <= x && x <= l && -l <= y && y <= l
}

/// Friction keeps the player within the speed cap.
proof fn lemma_decay_norm(v: Velocity, now: u64)
    requires
        v.magnitude.norm_sq() <= SPEED_CAP * SPEED_CAP,
    ensures
        decay_spec(v, now).magnitude.norm_sq() <= v.magnitude.norm_sq(),
{
    crate::sim::lemma_decay_shrinks(v, now);
}

} // verus!
