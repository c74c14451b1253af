use horde_core::actor::{Actor, Role};
use horde_core::combat::Contact;
use horde_core::geometry::Vec2;
use horde_core::progression::GameRules;
use horde_core::shooting::AimInput;
use horde_core::timer::{Timer, TimerMode};
use horde_core::world::{Bullet, OrbState, Projectile, World, XpOrb};
use horde_core::xp::step_orb;
use horde_core::actor::MoveInput;
use horde_core::audio::{AudioRequest, PlaySoundEffectEvent, SoundEffectType};
use horde_core::simulation::TickInput;

fn px(x: i64, y: i64) -> Vec2 {
    Vec2 { x: x * 1000, y: y * 1000 }
}

fn no_aim() -> AimInput {
    AimInput { left: false, right: false, up: false, down: false }
}

fn add_bullet(w: &mut World, damage: u32) -> u64 {
    let id = w.next_id;
    w.next_id += 1;
    w.projectiles.push(Projectile {
        id,
        bullet: Bullet { direction: Vec2 { x: 1000, y: 0 }, speed: 500, size: 10, damage },
        position: px(0, 0),
        velocity: Vec2 { x: 0, y: 0 },
        despawn_timer: Timer::new(3000, TimerMode::Once),
    });
    id
}

fn actor(w: &World, id: u64) -> Actor {
    *w.actors.iter().find(|a| a.id == id).unwrap()
}

fn contact(source: u64, target: u64) -> Contact {
    Contact { source, target, normal: Vec2 { x: 0, y: 1000 } }
}

#[test]
fn single_hit_kills_enemy_and_drops_once() {
    let mut w = World::new();
    w.spawn_player(px(0, 0)).unwrap();
    let enemy = w.spawn_enemy(px(500, 0)).unwrap();
    assert_eq!(actor(&w, enemy).health.max, 10);
    assert_eq!(actor(&w, enemy).health.current, 10);

    // let the shoot timer run out, then fire to the right
    assert!(w.player_shoot(no_aim(), 400).is_none());
    let aim = AimInput { left: false, right: true, up: false, down: false };
    assert!(w.player_shoot(aim, 16).is_some());
    assert_eq!(w.projectiles.len(), 1);
    let bullet = w.projectiles[0].id;
    assert_eq!(w.projectiles[0].bullet.damage, 10);

    let hits = w.resolve_contacts(&vec![contact(bullet, enemy), contact(bullet, enemy)]);
    assert_eq!(hits.len(), 1);
    assert!(w.projectiles.is_empty());

    w.tick_hurt(50);
    assert_eq!(actor(&w, enemy).health.current, 10);
    w.tick_hurt(50);
    let e = actor(&w, enemy);
    assert_eq!(e.health.current, 0);
    assert!(e.hurting.is_none());

    let drops = w.kill_depleted();
    assert_eq!(drops.len(), 1);
    assert_eq!(drops[0].amount, 1);
    assert_eq!(drops[0].location, px(500, 0));
    let e = actor(&w, enemy);
    assert!(e.dead);
    assert!(!e.has_collider);
    assert_eq!(e.velocity, Vec2 { x: 0, y: 0 });

    // later passes never drop again
    assert!(w.kill_depleted().is_empty());
    w.tick_hurt(100);
    assert!(w.kill_depleted().is_empty());
}

#[test]
fn later_contact_overwrites_pending_damage() {
    let mut w = World::new();
    w.spawn_player(px(0, 0)).unwrap();
    let enemy = w.spawn_enemy(px(300, 0)).unwrap();
    let b4 = add_bullet(&mut w, 4);
    let b6 = add_bullet(&mut w, 6);
    w.resolve_contacts(&vec![contact(b4, enemy)]);
    w.tick_hurt(40);
    w.resolve_contacts(&vec![contact(b6, enemy)]);
    assert_eq!(actor(&w, enemy).hurting.unwrap().damage, 6);
    w.tick_hurt(60);
    let e = actor(&w, enemy);
    assert_eq!(e.health.current, 4);
    assert!(e.hurting.is_none());
    assert!(w.kill_depleted().is_empty());
}

#[test]
fn two_contacts_in_one_tick_keep_the_last() {
    let mut w = World::new();
    let enemy = w.spawn_enemy(px(300, 0)).unwrap();
    let b4 = add_bullet(&mut w, 4);
    let b6 = add_bullet(&mut w, 6);
    let hits = w.resolve_contacts(&vec![contact(b4, enemy), contact(b6, enemy)]);
    assert_eq!(hits.len(), 2);
    w.tick_hurt(100);
    assert_eq!(actor(&w, enemy).health.current, 4);
}

#[test]
fn leveling_step_from_base_threshold() {
    let mut rules = GameRules::new();
    rules.set_xp(10);
    assert_eq!(rules.level_xp_base, 10);
    assert_eq!(rules.level_xp_multiplier, 100);
    let interval = rules.enemy_spawn_interval;
    assert!(rules.level_up());
    assert_eq!(rules.level, 1);
    assert_eq!(rules.level_xp_multiplier, 120);
    assert_eq!(rules.xp, 0);
    assert!(rules.enemy_spawn_interval < interval);
    assert_eq!(rules.enemy_spawn_interval, 1700);
    assert_eq!(rules.get_level_xp(), 12);
}

#[test]
fn projectile_despawns_at_its_lifetime() {
    let mut w = World::new();
    w.spawn_player(px(0, 0)).unwrap();
    w.player_shoot(no_aim(), 400);
    let aim = AimInput { left: false, right: false, up: true, down: false };
    w.player_shoot(aim, 0);
    assert_eq!(w.projectiles.len(), 1);
    assert_eq!(w.projectiles[0].position, px(0, 10));
    w.update_bullets(1000);
    assert_eq!(w.projectiles[0].velocity, Vec2 { x: 0, y: 500_000 });
    w.update_bullets(1000);
    w.update_bullets(999);
    assert_eq!(w.projectiles.len(), 1);
    w.update_bullets(1);
    assert!(w.projectiles.is_empty());
}

#[test]
fn projectile_despawns_after_three_one_second_ticks() {
    let mut w = World::new();
    add_bullet(&mut w, 1);
    w.update_bullets(1000);
    w.update_bullets(1000);
    assert_eq!(w.projectiles.len(), 1);
    w.update_bullets(1000);
    assert!(w.projectiles.is_empty());
}

#[test]
fn attracted_orb_approaches_until_collected() {
    let mut w = World::new();
    w.spawn_player(px(0, 0)).unwrap();
    let id = w.next_id;
    w.next_id += 1;
    w.orbs.push(XpOrb { id, amount: 3, position: px(200, 0), scale: 1000, state: OrbState::Free });

    // a free orb stays put
    assert!(w.move_orbs(16).is_empty());
    assert_eq!(w.orbs[0].position, px(200, 0));

    w.attract_orbs(&vec![id]);
    assert_eq!(w.orbs[0].state, OrbState::Attracted);
    let mut last = 200_000;
    let mut ticks = 0;
    loop {
        let next = step_orb(w.orbs[0], px(0, 0), 16);
        let d = next.position.length();
        let collected = w.move_orbs(16);
        ticks += 1;
        if d < 45_000 {
            assert_eq!(collected, vec![3]);
            assert!(w.orbs.is_empty());
            break;
        }
        assert!(collected.is_empty());
        assert!(d <= last);
        last = d;
        assert!(ticks < 1000);
    }
    assert_eq!(w.rules.xp, 3);
    assert!(ticks > 1);
}

#[test]
fn player_contact_opens_window_and_dead_player_stops() {
    let mut w = World::new();
    let player = w.spawn_player(px(0, 0)).unwrap();
    let enemy = w.spawn_enemy(px(10, 0)).unwrap();
    let hits = w.resolve_contacts(&vec![contact(enemy, player)]);
    assert_eq!(hits.len(), 1);
    w.tick_hurt(100);
    assert_eq!(actor(&w, player).health.current, 2);
    for _ in 0..2 {
        w.resolve_contacts(&vec![contact(enemy, player)]);
        w.tick_hurt(100);
    }
    assert_eq!(actor(&w, player).health.current, 0);
    let drops = w.kill_depleted();
    assert!(drops.is_empty());
    let p = actor(&w, player);
    assert!(p.dead);
    // a dead player takes no more hits
    assert!(w.resolve_contacts(&vec![contact(enemy, player)]).is_empty());
    match p.role {
        Role::Player(_) => {}
        Role::Enemy(_) => panic!("expected the player"),
    }
}

#[test]
fn one_tick_runs_the_stages_in_order() {
    let mut w = World::new();
    w.spawn_player(px(0, 0)).unwrap();
    let enemy = w.spawn_enemy(px(500, 0)).unwrap();
    let bullet = add_bullet(&mut w, 10);
    let input = TickInput {
        delta: 100,
        movement: MoveInput { up: false, down: false, left: false, right: false },
        aim: no_aim(),
        camera: None,
        contacts: vec![contact(bullet, enemy), contact(bullet, enemy)],
        magnet: vec![],
        finished_animations: vec![enemy],
    };
    let out = w.step(&input);
    // the hit of this tick lands, kills, drops and the enemy leaves, all in one tick
    assert_eq!(out.hits.len(), 1);
    assert_eq!(out.drops.len(), 1);
    assert_eq!(out.drops[0].location, px(500, 0));
    assert!(w.actors.iter().all(|a| a.id != enemy));
    assert!(w.projectiles.is_empty());
    assert_eq!(w.orbs.len(), 1);
    assert_eq!(w.orbs[0].state, OrbState::Free);
    assert_eq!(w.orbs[0].position, px(500, 0));
    assert_eq!(
        out.audio,
        vec![AudioRequest::Effect(PlaySoundEffectEvent { sound: SoundEffectType::EnemyHurt })]
    );
    assert!(out.spawned.is_none());
    assert!(!out.level_up);
}
