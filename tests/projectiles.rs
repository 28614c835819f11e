use rusty_shooter::geometry::Point;
use rusty_shooter::kinds::ProjectileKind;
use rusty_shooter::perception::RayHit;
use rusty_shooter::projectile::{resolve_contacts, resolve_sweep, ActorBody, Contact, Hit, Projectile, SweepHit};

fn at(x: i64) -> Point {
    Point::new(x, 0, 0)
}

fn actors() -> Vec<ActorBody> {
    vec![ActorBody { actor: 1, body: 11 }, ActorBody { actor: 2, body: 12 }, ActorBody { actor: 3, body: 13 }]
}

#[test]
fn sweep_stops_at_static_geometry() {
    let sweep = vec![SweepHit { kind: RayHit::Static, position: at(5) }, SweepHit { kind: RayHit::Body(12), position: at(9) }];
    assert_eq!(resolve_sweep(&sweep, &actors(), Some(1)), Some((None, at(5))));
    let mut p = Projectile::new(ProjectileKind::Bullet, 40);
    let out = p.update(&sweep, &Vec::new(), &actors(), Some(1), at(10), 16);
    assert!(out.hits.is_empty());
    assert_eq!(out.impact, Some(at(5)));
    assert!(p.is_dead());
}

#[test]
fn sweep_passes_the_shooter_and_unknown_bodies() {
    let sweep = vec![
        SweepHit { kind: RayHit::Body(11), position: at(1) },
        SweepHit { kind: RayHit::Body(99), position: at(2) },
        SweepHit { kind: RayHit::Body(13), position: at(3) },
    ];
    let mut p = Projectile::new(ProjectileKind::Bullet, 40);
    let out = p.update(&sweep, &Vec::new(), &actors(), Some(1), at(10), 16);
    assert_eq!(out.hits, vec![Hit { actor: 3, who: 1 }]);
    assert_eq!(out.impact, Some(at(3)));
}

#[test]
fn projectile_without_shooter_damages_nobody() {
    let sweep = vec![SweepHit { kind: RayHit::Body(12), position: at(1) }];
    assert_eq!(resolve_sweep(&sweep, &actors(), None), None);
    let mut p = Projectile::new(ProjectileKind::Rocket, 40);
    let out = p.update(&sweep, &Vec::new(), &actors(), None, at(10), 16);
    assert!(out.hits.is_empty());
    assert_eq!(out.impact, None);
    assert!(!p.is_dead());
}

#[test]
fn contacts_damage_and_kill_except_with_the_shooter() {
    let own = vec![Contact { body: 11, position: at(4) }];
    assert_eq!(resolve_contacts(&own, &actors(), Some(1)), (Vec::new(), None));
    let mut p = Projectile::new(ProjectileKind::Plasma, 40);
    let out = p.update(&Vec::new(), &own, &actors(), Some(1), at(10), 16);
    assert_eq!(out.impact, None);
    assert!(!p.is_dead());

    let both = vec![Contact { body: 12, position: at(6) }, Contact { body: 11, position: at(7) }];
    let out = p.update(&Vec::new(), &both, &actors(), Some(1), at(10), 16);
    assert_eq!(out.hits, vec![Hit { actor: 2, who: 1 }]);
    assert_eq!(out.impact, Some(at(6)));
    assert!(p.is_dead());
}

#[test]
fn contact_with_the_level_kills_too() {
    let wall = vec![Contact { body: 500, position: at(8) }];
    let mut p = Projectile::new(ProjectileKind::Plasma, 40);
    let out = p.update(&Vec::new(), &wall, &actors(), Some(1), at(10), 16);
    assert!(out.hits.is_empty());
    assert_eq!(out.impact, Some(at(8)));
}

#[test]
fn one_actor_is_damaged_once_per_tick() {
    let sweep = vec![SweepHit { kind: RayHit::Body(12), position: at(2) }];
    let contacts = vec![Contact { body: 12, position: at(3) }];
    let mut p = Projectile::new(ProjectileKind::Plasma, 40);
    let out = p.update(&sweep, &contacts, &actors(), Some(1), at(10), 16);
    assert_eq!(out.hits, vec![Hit { actor: 2, who: 1 }]);
    assert_eq!(out.impact, Some(at(3)));
}

#[test]
fn projectile_dies_of_age_where_it_is() {
    let mut p = Projectile::new(ProjectileKind::Bullet, 40);
    let out = p.update(&Vec::new(), &Vec::new(), &actors(), Some(1), at(10), 9_000);
    assert_eq!(out.impact, None);
    let out = p.update(&Vec::new(), &Vec::new(), &actors(), Some(1), at(20), 1_000);
    assert_eq!(out.impact, Some(at(20)));
    assert!(p.is_dead());
}
