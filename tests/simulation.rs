use topdown_sim::geom::{ceil_sqrt, rescale, vec2, Vec2i, MAX_SQUARE};
use topdown_sim::sim::{
    apply_input, aim, decay, integrate, is_expired, try_fire, Keys, Lifespan, Shooter,
    Transform, Velocity, PROJECTILE_SPEED, SPAWN_OFFSET, SPEED_CAP,
};
use topdown_sim::world::{FireEvent, MouseButton, World};

const UNIT: i64 = 1_000_000_000;

fn keys(up: bool, down: bool, left: bool, right: bool) -> Keys {
    Keys { up, down, left, right }
}

fn still(last_change: u64) -> Velocity {
    Velocity { magnitude: vec2(0, 0), last_change, no_friction: false }
}

fn press() -> FireEvent {
    FireEvent { button: MouseButton::Left, pressed: true }
}

#[test]
fn ceil_sqrt_values() {
    assert_eq!(ceil_sqrt(0), 0);
    assert_eq!(ceil_sqrt(1), 1);
    assert_eq!(ceil_sqrt(2), 2);
    assert_eq!(ceil_sqrt(16), 4);
    assert_eq!(ceil_sqrt(17), 5);
    assert_eq!(ceil_sqrt(MAX_SQUARE), u64::MAX as u128);
}

#[test]
fn rescale_exact_and_rounded() {
    assert_eq!(rescale(vec2(3, 4), 10), vec2(6, 8));
    assert_eq!(rescale(vec2(-3, 4), 10), vec2(-6, 8));
    assert_eq!(rescale(vec2(1, 1), 1000), vec2(500, 500));
    assert_eq!(rescale(vec2(16000, 16000), 80000), vec2(56567, 56567));
    assert_eq!(rescale(vec2(i64::MAX, -i64::MAX), 2), vec2(1, -1));
}

#[test]
fn integration_moves_by_velocity_times_dt() {
    let mut t = Transform { position: vec2(5, -7), heading: vec2(1, 0) };
    let v = Velocity { magnitude: vec2(80_000, -3), last_change: 0, no_friction: false };
    integrate(&mut t, &v, 16_000);
    assert_eq!(t.position, vec2(5 + 80_000 * 16_000, -7 - 3 * 16_000));
    assert_eq!(t.heading, vec2(1, 0));
}

#[test]
fn integration_zero_dt_is_noop() {
    let mut t = Transform { position: vec2(11, 12), heading: vec2(0, 1) };
    let v = Velocity { magnitude: vec2(123_456, -654_321), last_change: 0, no_friction: true };
    integrate(&mut t, &v, 0);
    assert_eq!(t, Transform { position: vec2(11, 12), heading: vec2(0, 1) });
}

#[test]
fn friction_decays_after_quiescence() {
    let v = Velocity { magnitude: vec2(1000, -1000), last_change: 0, no_friction: false };
    assert_eq!(decay(v, 100_000), v);
    let d = decay(v, 100_001);
    assert_eq!(d.magnitude, vec2(700, -700));
    assert_eq!(d.last_change, 0);
}

#[test]
fn friction_repeats_without_reset() {
    let mut v = Velocity { magnitude: vec2(1000, 0), last_change: 0, no_friction: false };
    let mut speeds: Vec<i64> = Vec::new();
    for frame in 0..4u64 {
        v = decay(v, 200_000 + frame * 100_000);
        speeds.push(v.magnitude.x);
    }
    assert_eq!(speeds, vec![700, 490, 343, 240]);
}

#[test]
fn friction_leaves_rest_and_projectiles() {
    let rest = still(0);
    assert_eq!(decay(rest, 1_000_000), rest);
    let shot = Velocity { magnitude: vec2(2_000_000, 0), last_change: 0, no_friction: true };
    assert_eq!(decay(shot, 1_000_000), shot);
}

#[test]
fn input_up_one_frame() {
    let v = apply_input(still(0), keys(true, false, false, false), 16_000, 16_000);
    assert_eq!(v.magnitude, vec2(0, 80_000));
    assert!(v.magnitude.y > 0);
    assert!(v.magnitude.y <= SPEED_CAP);
    assert_eq!(v.last_change, 16_000);
}

#[test]
fn input_diagonal_is_normalized() {
    let v = apply_input(still(0), keys(true, false, false, true), 16_000, 5);
    assert_eq!(v.magnitude, vec2(56567, 56567));
}

#[test]
fn input_caps_speed() {
    let v = Velocity { magnitude: vec2(499_000, 0), last_change: 0, no_friction: false };
    let r = apply_input(v, keys(false, false, false, true), 16_000, 7);
    assert_eq!(r.magnitude, vec2(SPEED_CAP, 0));
    let mut w = still(0);
    for frame in 0..200u64 {
        w = apply_input(w, keys(true, false, false, true), 16_000, frame);
        let n = (w.magnitude.x as i128).pow(2) + (w.magnitude.y as i128).pow(2);
        assert!(n <= (SPEED_CAP as i128).pow(2));
    }
}

#[test]
fn input_opposing_keys_cancel() {
    let v = Velocity { magnitude: vec2(10, 20), last_change: 0, no_friction: false };
    let r = apply_input(v, keys(false, false, true, true), 16_000, 99);
    assert_eq!(r.magnitude, vec2(10, 20));
    assert_eq!(r.last_change, 99);
}

#[test]
fn input_none_or_zero_dt() {
    let v = Velocity { magnitude: vec2(10, 20), last_change: 3, no_friction: false };
    assert_eq!(apply_input(v, keys(false, false, false, false), 16_000, 99), v);
    let r = apply_input(v, keys(true, false, false, false), 0, 99);
    assert_eq!(r.magnitude, vec2(10, 20));
    assert_eq!(r.last_change, 99);
}

#[test]
fn aim_pointer_on_player_keeps_facing() {
    let mut w = World::new();
    w.aim_system(&vec![vec2(640 * UNIT, 400 * UNIT)]);
    assert_eq!(w.player.shooter.shoot_direction, vec2(0, 0));
    assert_eq!(w.player.shooter.shoot_heading, vec2(1, 0));
    assert_eq!(w.player.transform.heading, vec2(1, 0));
}

#[test]
fn aim_from_offset_player() {
    let mut t = Transform { position: vec2(3 * UNIT, 4 * UNIT), heading: vec2(1, 0) };
    let mut s = Shooter { shoot_direction: vec2(0, 0), shoot_heading: vec2(1, 0), last_shot_at: None };
    aim(&mut t, &mut s, vec2(640 * UNIT, 400 * UNIT));
    assert_eq!(s.shoot_direction, vec2(-3 * UNIT, -4 * UNIT));
    assert_eq!(s.shoot_heading, vec2(-3 * UNIT, -4 * UNIT));
    assert_eq!(t.heading, vec2(-4 * UNIT, 3 * UNIT));
    assert_eq!(t.position, vec2(3 * UNIT, 4 * UNIT));
}

#[test]
fn aim_last_event_wins() {
    let mut w = World::new();
    w.aim_system(&vec![vec2(650 * UNIT, 400 * UNIT), vec2(640 * UNIT, 410 * UNIT)]);
    assert_eq!(w.player.shooter.shoot_direction, vec2(0, 10 * UNIT));
    assert_eq!(w.player.transform.heading, vec2(10 * UNIT, 0));
}

#[test]
fn fire_default_direction() {
    let t = Transform { position: vec2(0, 0), heading: vec2(1, 0) };
    let mut s = Shooter { shoot_direction: vec2(0, 0), shoot_heading: vec2(1, 0), last_shot_at: None };
    let shot = try_fire(&t, &mut s, 7).unwrap();
    assert_eq!(shot.transform.position, vec2(SPAWN_OFFSET, 0));
    assert_eq!(shot.velocity.magnitude, vec2(PROJECTILE_SPEED, 0));
    assert!(shot.velocity.no_friction);
    assert_eq!(shot.lifespan.kill_at, 500_007);
    assert_eq!(s.last_shot_at, Some(7));
}

#[test]
fn fire_along_aim() {
    let t = Transform { position: vec2(UNIT, 0), heading: vec2(1, 0) };
    let mut s = Shooter { shoot_direction: vec2(0, -3), shoot_heading: vec2(0, -3), last_shot_at: Some(0) };
    let shot = try_fire(&t, &mut s, 100_001).unwrap();
    assert_eq!(shot.transform.position, vec2(UNIT, -SPAWN_OFFSET));
    assert_eq!(shot.transform.heading, vec2(0, -3));
    assert_eq!(shot.velocity.magnitude, vec2(0, -PROJECTILE_SPEED));
}

#[test]
fn fire_cooldown_blocks() {
    let t = Transform { position: vec2(0, 0), heading: vec2(1, 0) };
    let mut s = Shooter { shoot_direction: vec2(1, 0), shoot_heading: vec2(1, 0), last_shot_at: Some(0) };
    assert!(try_fire(&t, &mut s, 100_000).is_none());
    assert_eq!(s.last_shot_at, Some(0));
    assert!(try_fire(&t, &mut s, 100_001).is_some());
}

#[test]
fn fire_ignores_other_buttons_and_releases() {
    let mut w = World::new();
    let evs = vec![
        FireEvent { button: MouseButton::Right, pressed: true },
        FireEvent { button: MouseButton::Left, pressed: false },
        FireEvent { button: MouseButton::Middle, pressed: true },
    ];
    w.fire_system(&evs, 1_000_000);
    assert_eq!(w.projectiles.len(), 0);
    assert_eq!(w.player.shooter.last_shot_at, None);
}

#[test]
fn one_shot_per_frame() {
    let mut w = World::new();
    w.fire_system(&vec![press(), press(), press()], 1_000_000);
    assert_eq!(w.projectiles.len(), 1);
    assert_eq!(w.projectiles[0].id, 0);
    assert_eq!(w.next_id, 1);
}

#[test]
fn scenario_cooldown_between_frames() {
    let mut w = World::new();
    w.fire_system(&vec![press()], 0);
    assert_eq!(w.projectiles.len(), 1);
    w.fire_system(&vec![press()], 50_000);
    w.reap_system(50_000);
    assert_eq!(w.projectiles.len(), 1);
    w.fire_system(&vec![press()], 200_000);
    assert_eq!(w.projectiles.len(), 2);
    assert_eq!(w.projectiles[1].id, 1);
    assert_eq!(w.projectiles[1].lifespan, Lifespan { kill_at: 700_000 });
}

#[test]
fn scenario_lifespan_expiry() {
    let mut w = World::new();
    w.fire_system(&vec![press()], 1_000_000);
    w.reap_system(1_490_000);
    assert_eq!(w.projectiles.len(), 1);
    w.reap_system(1_500_000);
    assert_eq!(w.projectiles.len(), 0);
    assert!(!is_expired(&Lifespan { kill_at: 10 }, 9));
    assert!(is_expired(&Lifespan { kill_at: 10 }, 10));
}

#[test]
fn reap_keeps_order() {
    let mut w = World::new();
    for k in 0..4u64 {
        w.fire_system(&vec![press()], k * 200_000);
    }
    w.reap_system(750_000);
    let ids: Vec<u64> = w.projectiles.iter().map(|p| p.id).collect();
    assert_eq!(ids, vec![2, 3]);
}

#[test]
fn systems_move_and_slow() {
    let mut w = World::new();
    w.input_system(keys(true, false, false, false), 16_000, 16_000);
    assert_eq!(w.player.velocity.magnitude, vec2(0, 80_000));
    w.fire_system(&vec![press()], 16_000);
    assert!(w.can_move(16_000));
    w.movement_system(16_000);
    assert_eq!(w.player.transform.position, vec2(0, 80_000 * 16_000));
    assert_eq!(w.projectiles[0].transform.position, vec2(SPAWN_OFFSET + PROJECTILE_SPEED * 16_000, 0));
    w.friction_system(116_001);
    assert_eq!(w.player.velocity.magnitude, vec2(0, 56_000));
    assert_eq!(w.projectiles[0].velocity.magnitude, vec2(PROJECTILE_SPEED, 0));
}

#[test]
fn movement_bound_check() {
    let mut w = World::new();
    w.player.velocity.magnitude = vec2(500_000, 0);
    assert!(w.can_move(1_000_000));
    assert!(!w.can_move(u64::MAX / 2));
    let p: Vec2i = w.player.transform.position;
    assert_eq!(p, vec2(0, 0));
}
