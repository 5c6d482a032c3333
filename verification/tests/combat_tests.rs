use code_termination::combat::{
    handle_damage, ram_after_hit, scan_contacts, BossVitals, EnemyContact, Hazards, RamState,
    Strike,
};

fn calm() -> Hazards {
    Hazards {
        fell_into_void: false,
        glitching: false,
        glitch_just_ended: false,
        on_spike: false,
        in_wall: false,
        in_laser: false,
        attacking: false,
        invulnerable: false,
    }
}

fn enemy(overlapping: bool) -> EnemyContact {
    EnemyContact { destroyed: false, overlapping, boss: None }
}

fn boss(health: u32, invulnerable: bool) -> EnemyContact {
    EnemyContact { destroyed: false, overlapping: true, boss: Some(BossVitals { health, invulnerable }) }
}

#[test]
fn ram_default_and_hits() {
    assert_eq!(RamState::default(), RamState { current: 6, max: 6 });
    assert_eq!(ram_after_hit(6), 4);
    assert_eq!(ram_after_hit(1), 0);
    assert_eq!(ram_after_hit(0), 0);
}

#[test]
fn three_hits_crash() {
    let mut ram = 6;
    let mut es = vec![];
    let h = Hazards { on_spike: true, ..calm() };
    for expected in [4, 2] {
        let (o, _) = handle_damage(ram, h, &mut es);
        assert!(o.hit && !o.crashed);
        assert_eq!(o.ram, expected);
        ram = o.ram;
    }
    let (o, _) = handle_damage(ram, h, &mut es);
    assert_eq!(o.ram, 0);
    assert!(o.crashed);
}

#[test]
fn fall_crashes_at_once() {
    let mut es = vec![enemy(true)];
    let (o, s) = handle_damage(6, Hazards { fell_into_void: true, invulnerable: true, ..calm() }, &mut es);
    assert_eq!(o.ram, 0);
    assert!(o.crashed && !o.hit);
    assert_eq!(s, vec![Strike::Untouched]);
    assert_eq!(es, vec![enemy(true)]);
}

#[test]
fn glitch_protects() {
    let mut es = vec![enemy(true)];
    let h = Hazards { glitching: true, on_spike: true, in_laser: true, ..calm() };
    let (o, s) = handle_damage(6, h, &mut es);
    assert_eq!(o.ram, 6);
    assert!(!o.hit);
    assert_eq!(s, vec![Strike::Untouched]);
}

#[test]
fn glitch_ending_in_wall_hurts() {
    let mut es = vec![];
    let (o, _) = handle_damage(6, Hazards { glitch_just_ended: true, in_wall: true, ..calm() }, &mut es);
    assert!(o.hit);
    assert_eq!(o.ram, 4);
    let (o, _) = handle_damage(6, Hazards { in_wall: true, ..calm() }, &mut es);
    assert!(!o.hit);
}

#[test]
fn invulnerable_takes_no_damage() {
    let mut es = vec![];
    let (o, _) = handle_damage(2, Hazards { on_spike: true, invulnerable: true, ..calm() }, &mut es);
    assert_eq!(o.ram, 2);
    assert!(!o.hit && !o.crashed);
}

#[test]
fn laser_hurts() {
    let mut es = vec![];
    let (o, _) = handle_damage(6, Hazards { in_laser: true, ..calm() }, &mut es);
    assert!(o.hit);
    assert_eq!(o.ram, 4);
}

#[test]
fn touching_enemy_hurts_and_stops() {
    let mut es = vec![enemy(false), enemy(true), enemy(true)];
    let (o, s) = handle_damage(6, calm(), &mut es);
    assert!(o.hit);
    assert_eq!(s, vec![Strike::Untouched; 3]);
    assert!(es.iter().all(|e| !e.destroyed));
}

#[test]
fn dash_destroys_enemies() {
    let mut es = vec![enemy(true), enemy(false), enemy(true)];
    let (o, s) = handle_damage(6, Hazards { attacking: true, ..calm() }, &mut es);
    assert!(!o.hit);
    assert_eq!(s, vec![Strike::Destroyed, Strike::Untouched, Strike::Destroyed]);
    assert!(es[0].destroyed && !es[1].destroyed && es[2].destroyed);
}

#[test]
fn destroyed_enemies_are_harmless() {
    let mut es = vec![EnemyContact { destroyed: true, overlapping: true, boss: None }];
    let (o, _) = handle_damage(6, calm(), &mut es);
    assert!(!o.hit);
}

#[test]
fn boss_takes_hits_then_falls() {
    let mut es = vec![boss(3, false)];
    let (s, _) = scan_contacts(&mut es, true);
    assert_eq!(s, vec![Strike::BossDamaged]);
    assert_eq!(es[0].boss, Some(BossVitals { health: 2, invulnerable: true }));
    let (s, _) = scan_contacts(&mut es, true);
    assert_eq!(s, vec![Strike::Untouched]);
    es[0].boss = Some(BossVitals { health: 2, invulnerable: false });
    let (s, _) = scan_contacts(&mut es, true);
    assert_eq!(s, vec![Strike::BossDamaged]);
    es[0].boss = Some(BossVitals { health: 1, invulnerable: false });
    let (s, hurt) = scan_contacts(&mut es, true);
    assert!(!hurt);
    assert_eq!(s, vec![Strike::BossDefeated]);
    assert!(es[0].destroyed);
    assert_eq!(es[0].boss, Some(BossVitals { health: 0, invulnerable: false }));
}

#[test]
fn boss_defeated_strike() {
    let mut es = vec![boss(1, false)];
    let (s, hurt) = scan_contacts(&mut es, true);
    assert_eq!(s, vec![Strike::BossDefeated]);
    assert!(!hurt);
}

#[test]
fn spike_and_dash_same_frame() {
    let mut es = vec![enemy(true)];
    let (o, s) = handle_damage(6, Hazards { on_spike: true, attacking: true, ..calm() }, &mut es);
    assert!(o.hit);
    assert_eq!(o.ram, 4);
    assert_eq!(s, vec![Strike::Destroyed]);
}
