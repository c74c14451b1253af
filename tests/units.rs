use horde_core::actor::{
    Actor, Enemy, Health, MoveInput, MoveState, Player, Role, SpriteTint, HURT_DURATION_MS,
};
use horde_core::audio::{AudioRequest, MusicType, PlayMusicEvent, SoundEffectType};
use horde_core::geometry::{isqrt, Vec2};
use horde_core::progression::{enter_state, xp_bar_step, GameRules, GameState};
use horde_core::shooting::{aim_direction, AimInput};
use horde_core::simulation::TickInput;
use horde_core::particle::thrown_particle;
use horde_core::spawner::{random_spawn_point, spawn_point, CameraView};
use horde_core::timer::{Timer, TimerMode};
use horde_core::world::World;

fn px(x: i64, y: i64) -> Vec2 {
    Vec2 { x: x * 1000, y: y * 1000 }
}

fn enemy_at(x: i64, y: i64) -> Actor {
    Actor {
        id: 1,
        role: Role::Enemy(Enemy::new()),
        position: px(x, y),
        velocity: Vec2 { x: 0, y: 0 },
        health: Health { max: 10, current: 10 },
        hurting: None,
        dead: false,
        has_collider: true,
    }
}

fn player_at(x: i64, y: i64) -> Actor {
    Actor { role: Role::Player(Player::new()), health: Health { max: 3, current: 3 }, ..enemy_at(x, y) }
}

#[test]
fn once_timer_finishes_once() {
    let mut t = Timer::new(100, TimerMode::Once);
    t.tick(60);
    assert!(!t.just_finished());
    assert_eq!(t.elapsed, 60);
    t.tick(60);
    assert!(t.just_finished());
    assert!(t.is_finished());
    assert_eq!(t.elapsed, 100);
    t.tick(60);
    assert!(!t.just_finished());
    assert!(t.is_finished());
    t.reset();
    assert_eq!(t.elapsed, 0);
    assert!(!t.is_finished());
}

#[test]
fn repeating_timer_wraps() {
    let mut t = Timer::new(200, TimerMode::Repeating);
    t.tick(450);
    assert_eq!(t.times_finished_this_tick, 2);
    assert_eq!(t.elapsed, 50);
    t.tick(100);
    assert!(!t.just_finished());
    assert_eq!(t.elapsed, 150);
}

#[test]
fn integer_square_roots() {
    assert_eq!(isqrt(0), 0);
    assert_eq!(isqrt(1), 1);
    assert_eq!(isqrt(15), 3);
    assert_eq!(isqrt(16), 4);
    assert_eq!(isqrt(2_000_000), 1414);
    assert_eq!(isqrt(1u128 << 80), 1u64 << 40);
}

#[test]
fn normalize_and_length() {
    assert_eq!(Vec2 { x: 3000, y: 4000 }.length(), 5000);
    assert_eq!(Vec2 { x: 3000, y: -4000 }.normalize(), Vec2 { x: 600, y: -800 });
    assert_eq!(Vec2 { x: 0, y: 0 }.normalize(), Vec2 { x: 0, y: 0 });
    assert_eq!(Vec2 { x: 1000, y: 1000 }.normalize(), Vec2 { x: 707, y: 707 });
    assert_eq!(px(5, 5).sub(&px(2, 1)), px(3, 4));
}

#[test]
fn enemy_chases_and_attacks_when_close() {
    let e = enemy_at(300, 400).steer_enemy(px(0, 0));
    assert_eq!(e.velocity, Vec2 { x: -60_000, y: -80_000 });
    match e.role {
        Role::Enemy(en) => {
            assert!(en.state.moving);
            assert!(!en.state.attack);
            assert_eq!(en.state.facing, Vec2 { x: -600, y: -800 });
        }
        Role::Player(_) => panic!("expected an enemy"),
    }
    let close = enemy_at(59, 0).steer_enemy(px(0, 0));
    assert_eq!(close.move_state(), MoveState::Attacking);
    assert_eq!(close.anim_index(), 2);
    assert_eq!(close.sprite_scale_x(), -5);
    let far = enemy_at(60, 0).steer_enemy(px(0, 0));
    assert_eq!(far.move_state(), MoveState::Moving);
    assert_eq!(far.anim_index(), 0);
}

#[test]
fn enemy_on_the_player_stands_still() {
    let e = enemy_at(7, 7).steer_enemy(px(7, 7));
    assert_eq!(e.velocity, Vec2 { x: 0, y: 0 });
    assert_eq!(e.move_state(), MoveState::Attacking);
    let mut dying = enemy_at(100, 0);
    dying.health.current = 0;
    let d = dying.steer_enemy(px(0, 0));
    assert_eq!(d.velocity, Vec2 { x: 0, y: 0 });
    assert_eq!(d.move_state(), MoveState::Dying);
    assert_eq!(d.anim_index(), 4);
}

#[test]
fn player_moves_by_input() {
    let input = MoveInput { up: true, down: false, left: true, right: false };
    let p = player_at(0, 0).steer_player(input);
    assert_eq!(p.velocity, Vec2 { x: -212_100, y: 212_100 });
    assert_eq!(p.sprite_scale_x(), -5);
    assert_eq!(p.move_state(), MoveState::Moving);
    let still = MoveInput { up: true, down: true, left: false, right: false };
    let q = p.steer_player(still);
    assert_eq!(q.velocity, Vec2 { x: 0, y: 0 });
    assert_eq!(q.move_state(), MoveState::Idle);
    assert_eq!(q.anim_index(), 2);
    assert_eq!(q.sprite_scale_x(), -5);
    let mut dead = player_at(0, 0);
    dead.dead = true;
    dead.has_collider = false;
    dead.health.current = 0;
    assert_eq!(dead.steer_player(input), dead);
}

#[test]
fn idle_enemy_and_pause() {
    let e = enemy_at(10, 0);
    assert_eq!(e.anim_index(), 1);
    let moving = enemy_at(300, 0).steer_enemy(px(0, 0));
    let paused = moving.pause();
    assert_eq!(paused.velocity, Vec2 { x: 0, y: 0 });
    assert_eq!(paused.move_state(), MoveState::Idle);
}

#[test]
fn hurt_window_tints_and_lands_once() {
    let e = enemy_at(0, 0).start_hurt(3);
    assert_eq!(e.tint(), SpriteTint::Red);
    assert_eq!(e.hurting.unwrap().timer.duration, HURT_DURATION_MS);
    let e = e.hurt_tick(99);
    assert_eq!(e.health.current, 10);
    let e = e.hurt_tick(1);
    assert_eq!(e.health.current, 7);
    assert_eq!(e.tint(), SpriteTint::White);
    let e = e.hurt_tick(100);
    assert_eq!(e.health.current, 7);
    assert!(e.health.current <= e.health.max);
}

#[test]
fn kill_is_taken_once() {
    let mut e = enemy_at(0, 0);
    e.health.current = -2;
    let k = e.kill();
    assert!(k.dead);
    assert!(!k.is_hittable());
    assert_eq!(k.kill(), k);
    assert_eq!(k.hurt_tick(100), k);
    assert_eq!(enemy_at(0, 0).kill(), enemy_at(0, 0));
}

#[test]
fn level_threshold_and_bar() {
    let mut rules = GameRules::new();
    assert_eq!(rules.get_level_xp(), 10);
    rules.set_xp(9);
    assert!(!rules.level_up());
    assert_eq!(rules.level, 0);
    assert_eq!(rules.xp_percent(), 90);
    rules.set_level(5);
    rules.set_xp(10);
    rules.enemy_spawn_interval = 500;
    assert!(rules.level_up());
    assert_eq!(rules.level, 6);
    assert_eq!(rules.enemy_spawn_interval, 400);
    rules.enemy_spawn_interval = 250;
    rules.set_xp(100);
    assert!(rules.level_up());
    assert_eq!(rules.enemy_spawn_interval, 200);
    rules.add_xp(u32::MAX);
    assert_eq!(rules.xp, u32::MAX);
    rules.reset();
    assert_eq!(rules.level, 0);
    assert_eq!(rules.enemy_spawn_interval, 2000);

    assert_eq!(xp_bar_step(0, 9000, 500), 4500);
    assert_eq!(xp_bar_step(9000, 1000, 250), 7000);
    assert_eq!(xp_bar_step(100, 9000, 1500), 9000);
}

#[test]
fn mode_changes_ask_for_audio() {
    let mut rules = GameRules::new();
    rules.set_xp(7);
    let up = enter_state(GameState::Upgrade, &mut rules);
    assert_eq!(up.len(), 3);
    assert_eq!(
        up[2],
        AudioRequest::Music(PlayMusicEvent { sound: MusicType::Upgrade, looping: true, fade_in: 1000 })
    );
    match up[1] {
        AudioRequest::Effect(e) => assert_eq!(e.sound, SoundEffectType::EnterLevelUp),
        _ => panic!("expected a sound effect"),
    }
    assert_eq!(rules.xp, 7);
    let menu = enter_state(GameState::Menu, &mut rules);
    assert_eq!(menu.len(), 2);
    assert_eq!(rules.xp, 0);
    assert!(enter_state(GameState::Loading, &mut rules).is_empty());
    let d = PlayMusicEvent::default();
    assert_eq!(d, PlayMusicEvent { sound: MusicType::Menu, looping: false, fade_in: 0 });
}

#[test]
fn aim_priority() {
    let all = AimInput { left: true, right: true, up: true, down: true };
    assert_eq!(aim_direction(all), Some(Vec2 { x: 0, y: -1000 }));
    let lr = AimInput { left: true, right: true, up: false, down: false };
    assert_eq!(aim_direction(lr), Some(Vec2 { x: 1000, y: 0 }));
    let none = AimInput { left: false, right: false, up: false, down: false };
    assert_eq!(aim_direction(none), None);
}

#[test]
fn spawn_points_lie_outside_the_view() {
    assert_eq!(spawn_point(800_000, 600_000, true, true, 5), Vec2 { x: 5, y: 650_000 });
    assert_eq!(spawn_point(800_000, 600_000, false, false, 7), Vec2 { x: -50_000, y: 7 });
    let cam = CameraView { center: px(100, 100), width: 800_000, height: 600_000 };
    assert_eq!(cam.to_world(Vec2 { x: 0, y: 0 }), px(-300, 400));
    for _ in 0..200 {
        let p = random_spawn_point(&cam);
        let v = Vec2 { x: p.x - cam.center.x + 400_000, y: cam.center.y + 300_000 - p.y };
        let on_top_or_bottom = (v.y == -50_000 || v.y == 650_000) && 0 <= v.x && v.x < 800_000;
        let on_left_or_right = (v.x == -50_000 || v.x == 850_000) && 0 <= v.y && v.y < 600_000;
        assert!(on_top_or_bottom || on_left_or_right);
    }
}

#[test]
fn spawner_spawns_on_its_interval() {
    let mut w = World::new();
    let cam = CameraView { center: px(0, 0), width: 800_000, height: 600_000 };
    assert!(w.tick_spawner(1999, Some(cam)).is_none());
    let id = w.tick_spawner(1, Some(cam)).unwrap();
    assert_eq!(w.actors.len(), 1);
    assert_eq!(w.actors[0].id, id);
    assert_eq!(w.actors[0].health, Health { max: 10, current: 10 });
    assert!(w.tick_spawner(2000, None).is_none());
    assert_eq!(w.actors.len(), 1);
}

#[test]
fn full_tick_levels_up_and_restarts_spawner() {
    let mut w = World::new();
    w.spawn_player(px(0, 0)).unwrap();
    w.rules.set_xp(10);
    let input = TickInput {
        delta: 16,
        movement: MoveInput { up: false, down: false, left: false, right: true },
        aim: AimInput { left: false, right: false, up: false, down: false },
        camera: None,
        contacts: vec![],
        magnet: vec![],
        finished_animations: vec![],
    };
    let out = w.step(&input);
    assert!(out.level_up);
    assert_eq!(w.rules.level, 1);
    assert_eq!(w.spawn_timer, Timer::new(1700, TimerMode::Repeating));
    assert_eq!(w.actors[0].velocity, Vec2 { x: 300_000, y: 0 });
    let out = w.step(&input);
    assert!(!out.level_up);
}

#[test]
fn dead_enemy_leaves_after_its_animation() {
    let mut w = World::new();
    let e = w.spawn_enemy(px(10, 10)).unwrap();
    assert!(!w.despawn_dead(e));
    w.actors[0].health.current = 0;
    w.kill_depleted();
    assert!(!w.despawn_dead(e + 100));
    assert!(w.despawn_dead(e));
    assert!(w.actors.is_empty());
    w.step_paused(&vec![e]);
}

#[test]
fn defaults_match_fresh_values() {
    assert_eq!(Enemy::default(), Enemy::new());
    assert_eq!(Enemy::default().stats.move_speed, 100);
    assert_eq!(Player::default(), Player::new());
    assert_eq!(Player::default().stats.shot_speed, 400);
    assert_eq!(GameRules::default(), GameRules::new());
    assert_eq!(GameRules::default().level_xp_base, 10);
    let p = horde_core::particle::Particle::default();
    assert_eq!(p.position, Vec2 { x: 0, y: 0 });
    assert_eq!(p.max_lifetime, 4000);
}

#[test]
fn thrown_particle_from_fixed_draws() {
    let p = thrown_particle(px(1, 2), Vec2 { x: 0, y: 1000 }, 500, 40, 600);
    // velocity = (normal * 1000 + tangent * spread * 3) * speed / 10^6, tangent = (n.y, -n.x)
    assert_eq!(p.velocity, Vec2 { x: 60, y: 40 });
    assert_eq!(p.position, px(1, 2));
    assert_eq!(p.initial_position, px(1, 2));
    assert_eq!(p.lifetime, 600);
    assert_eq!(p.max_lifetime, 600);
    let q = thrown_particle(px(0, 0), Vec2 { x: 1000, y: 0 }, -1000, 49, 300);
    assert_eq!(q.velocity, Vec2 { x: 49, y: 147 });
    // a long tick ends the particle
    assert!(p.update(1_000_000).is_none());
}

#[test]
fn world_mode_changes_restart_the_spawner() {
    let mut w = World::new();
    w.spawn_player(px(0, 0)).unwrap();
    w.rules.set_xp(10);
    assert!(w.rules.level_up());
    w.restart_spawner();
    assert_eq!(w.spawn_timer.duration, 1700);
    let audio = w.enter_state(GameState::Upgrade);
    assert_eq!(audio.len(), 3);
    assert_eq!(w.spawn_timer.duration, 1700);
    w.enter_state(GameState::Menu);
    assert_eq!(w.rules.level, 0);
    assert_eq!(w.spawn_timer, Timer::new(2000, TimerMode::Repeating));
    w.spawn_timer.tick(500);
    w.enter_state(GameState::Playing);
    assert_eq!(w.spawn_timer.elapsed, 0);
}
