use horde_core::audio::SoundEffectType;
use horde_core::combat::Hit;
use horde_core::geometry::Vec2;
use horde_core::menu::{update_menu, ButtonLook, Interaction};
use horde_core::particle::{hit_particles, Particle};
use horde_core::progression::GameState;

#[test]
fn hit_throws_three_to_eight_particles() {
    let hit = Hit {
        target: 4,
        position: Vec2 { x: 5000, y: -7000 },
        normal: Vec2 { x: 0, y: 1000 },
        sound: SoundEffectType::EnemyHurt,
    };
    for _ in 0..100 {
        let ps = hit_particles(&hit);
        assert!(ps.len() >= 3 && ps.len() <= 8);
        for p in &ps {
            assert_eq!(p.position, hit.position);
            assert!(p.lifetime >= 300 && p.lifetime < 800);
            assert_eq!(p.lifetime, p.max_lifetime);
            assert!(p.velocity.y >= 0 && p.velocity.y < 50);
            assert!(p.velocity.x.abs() <= 150);
        }
    }
}

#[test]
fn particle_falls_bounces_and_fades() {
    let p = Particle {
        initial_position: Vec2 { x: 0, y: 0 },
        position: Vec2 { x: 0, y: 0 },
        velocity: Vec2 { x: 20, y: -100 },
        max_lifetime: 1000,
        lifetime: 1000,
    };
    let q = p.update(100).unwrap();
    assert_eq!(q.position, Vec2 { x: 20, y: -100 - 9810 });
    assert_eq!(q.lifetime, 900);
    assert_eq!(q.alpha(), 900);
    let r = q.update(500).unwrap();
    assert_eq!(r.position, Vec2 { x: 40, y: -50_000 });
    assert_eq!(r.velocity, Vec2 { x: 20, y: 70 });
    assert!(r.update(400).is_none());
    assert_eq!(Particle::new(Vec2 { x: 1, y: 2 }).lifetime, 4000);
}

#[test]
fn menu_buttons_react() {
    let pressed = update_menu(Interaction::Pressed);
    assert_eq!(pressed.look, ButtonLook::Active);
    assert_eq!(pressed.sound, Some(SoundEffectType::UIEnter));
    assert_eq!(pressed.next_state, Some(GameState::Playing));
    let hovered = update_menu(Interaction::Hovered);
    assert_eq!(hovered.sound, Some(SoundEffectType::UIHover));
    assert_eq!(hovered.next_state, None);
    let idle = update_menu(Interaction::Idle);
    assert_eq!(idle.look, ButtonLook::Default);
    assert_eq!(idle.sound, None);
}
